//! A read-only reference library over an emoji catalog.
//!
//! The catalog is an immutable, canonically ordered sequence of emoji
//! records. Every query — lookup by textual form, iteration, group and
//! skin-tone accessors — is a pure, verified function over that sequence.

pub mod catalog;
pub mod data;
pub mod emoji;
pub mod group;
pub mod laws;
pub mod skin_tone;
pub mod version;

pub use catalog::{iter, lookup, Catalog};
pub use data::catalog;
pub use emoji::Emoji;
pub use group::Group;
pub use skin_tone::SkinTone;
pub use version::UnicodeVersion;

//! The Unicode version in which an emoji entered the standard.

use vstd::prelude::*;

verus! {

/// A `(major, minor)` version pair, compared lexicographically: the major
/// number dominates, equal majors fall back to the minor number.
#[derive(Clone, Copy, Debug, PartialEq, Eq, Structural, Hash)]
pub struct UnicodeVersion {
    pub major: u32,
    pub minor: u32,
}

/// Lexicographic order on version pairs: `a` is at most `b` when `a`'s major
/// number is smaller, or the majors agree and `a`'s minor number is at most `b`'s.
pub open spec fn version_le(a: UnicodeVersion, b: UnicodeVersion) -> bool {
    a.major < b.major || (a.major == b.major && a.minor <= b.minor)
}

impl UnicodeVersion {
    /// The comparison that `partial_cmp`, and through it `<`, `<=`, `>` and
    /// `>=`, is proved to return.
    pub open spec fn cmp_spec(self, other: UnicodeVersion) -> core::cmp::Ordering {
        if self.major < other.major {
            core::cmp::Ordering::Less
        } else if other.major < self.major {
            core::cmp::Ordering::Greater
        } else if self.minor < other.minor {
            core::cmp::Ordering::Less
        } else if other.minor < self.minor {
            core::cmp::Ordering::Greater
        } else {
            core::cmp::Ordering::Equal
        }
    }

    pub fn new(major: u32, minor: u32) -> (v: UnicodeVersion)
        ensures
            v == (UnicodeVersion { major, minor }),
    {
        UnicodeVersion { major, minor }
    }

    pub fn major(&self) -> (m: u32)
        ensures
            m == self.major,
    {
        self.major
    }

    pub fn minor(&self) -> (m: u32)
        ensures
            m == self.minor,
    {
        self.minor
    }
}

impl core::cmp::PartialOrd for UnicodeVersion {
    fn partial_cmp(&self, other: &Self) -> (r: Option<core::cmp::Ordering>) {
        if self.major < other.major {
            Some(core::cmp::Ordering::Less)
        } else if other.major < self.major {
            Some(core::cmp::Ordering::Greater)
        } else if self.minor < other.minor {
            Some(core::cmp::Ordering::Less)
        } else if other.minor < self.minor {
            Some(core::cmp::Ordering::Greater)
        } else {
            Some(core::cmp::Ordering::Equal)
        }
    }
}

impl vstd::std_specs::cmp::PartialOrdSpecImpl for UnicodeVersion {
    open spec fn obeys_partial_cmp_spec() -> bool {
        true
    }

    open spec fn partial_cmp_spec(&self, other: &Self) -> Option<core::cmp::Ordering> {
        Some(self.cmp_spec(*other))
    }
}

/// Versions are totally ordered: `a <= b` holds exactly on the lexicographic
/// order of the pairs, and exactly one of `a < b`, `a == b`, `b < a` holds.
pub proof fn lemma_version_order(a: UnicodeVersion, b: UnicodeVersion)
    ensures
        a.cmp_spec(b) != core::cmp::Ordering::Greater <==> version_le(a, b),
        a.cmp_spec(b) == core::cmp::Ordering::Equal <==> a == b,
        a.cmp_spec(b) == core::cmp::Ordering::Less <==> (version_le(a, b) && a != b),
{
}

} // verus!

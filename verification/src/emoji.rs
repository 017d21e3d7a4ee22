//! The emoji record: a Unicode scalar sequence plus its metadata.

use vstd::prelude::*;
use vstd::string::StringExecFns;

use crate::group::Group;
use crate::skin_tone::SkinTone;
use crate::version::UnicodeVersion;

verus! {

/// One catalog entry: the exact scalar sequence together with its category,
/// human-readable shortcodes, introduction version, skin-tone tag, and its
/// position (`id`) in the catalog, which is the sole source of ordering.
#[derive(Debug)]
pub struct Emoji {
    pub id: usize,
    pub sequence: String,
    pub group: Group,
    pub subgroup: String,
    pub shortcodes: Vec<String>,
    pub version: UnicodeVersion,
    pub skin_tone: Option<SkinTone>,
}

/// The mathematical image of an [`Emoji`]: every field as a plain value.
#[verifier::ext_equal]
pub ghost struct EmojiView {
    pub id: int,
    pub sequence: Seq<char>,
    pub group: Group,
    pub subgroup: Seq<char>,
    pub shortcodes: Seq<Seq<char>>,
    pub version: UnicodeVersion,
    pub skin_tone: Option<SkinTone>,
}

/// The distinguished shortcode of a record: the head of its shortcode list,
/// or `None` when the list is empty.
pub open spec fn first_shortcode(e: EmojiView) -> Option<Seq<char>> {
    if e.shortcodes.len() == 0 {
        None
    } else {
        Some(e.shortcodes[0])
    }
}

impl View for Emoji {
    type V = EmojiView;

    open spec fn view(&self) -> EmojiView {
        EmojiView {
            id: self.id as int,
            sequence: self.sequence@,
            group: self.group,
            subgroup: self.subgroup@,
            shortcodes: self.shortcodes.deep_view(),
            version: self.version,
            skin_tone: self.skin_tone,
        }
    }
}

impl Emoji {
    /// Assemble a record for a catalog under construction. A record becomes
    /// part of a queryable catalog only through the catalog's validating
    /// constructor, which assigns the positions.
    pub fn new(
        id: usize,
        sequence: &str,
        group: Group,
        subgroup: &str,
        shortcodes: Vec<String>,
        version: UnicodeVersion,
        skin_tone: Option<SkinTone>,
    ) -> (e: Emoji)
        ensures
            e@ == (EmojiView {
                id: id as int,
                sequence: sequence@,
                group,
                subgroup: subgroup@,
                shortcodes: shortcodes.deep_view(),
                version,
                skin_tone,
            }),
    {
        let e = Emoji {
            id,
            sequence: String::from_str(sequence),
            group,
            subgroup: String::from_str(subgroup),
            shortcodes,
            version,
            skin_tone,
        };
        proof {
            assert(e@ =~= (EmojiView {
                id: id as int,
                sequence: sequence@,
                group,
                subgroup: subgroup@,
                shortcodes: e.shortcodes.deep_view(),
                version,
                skin_tone,
            }));
        }
        e
    }

    /// The exact backing sequence.
    pub fn as_str(&self) -> (s: &str)
        ensures
            s@ == self@.sequence,
    {
        self.sequence.as_str()
    }

    /// The record's position in its catalog: the single source of truth for
    /// all relative ordering.
    pub fn id(&self) -> (i: usize)
        ensures
            i as int == self@.id,
    {
        self.id
    }

    /// The category this record belongs to.
    pub fn group(&self) -> (g: Group)
        ensures
            g == self@.group,
    {
        self.group
    }

    /// The subgroup identifier within the category.
    pub fn subgroup(&self) -> (s: &str)
        ensures
            s@ == self@.subgroup,
    {
        self.subgroup.as_str()
    }

    /// The Unicode version that introduced this sequence.
    pub fn version(&self) -> (v: UnicodeVersion)
        ensures
            v == self@.version,
    {
        self.version
    }

    /// The stored skin-tone tag; `None` means the emoji has no skin-tone
    /// concept at all.
    pub fn skin_tone(&self) -> (t: Option<SkinTone>)
        ensures
            t == self@.skin_tone,
    {
        self.skin_tone
    }

    /// The first shortcode, if any exist: `Some` exactly when the record has
    /// at least one shortcode, and then the first of [`Self::shortcodes`].
    pub fn shortcode(&self) -> (r: Option<&str>)
        ensures
            r is Some <==> first_shortcode(self@) is Some,
            r matches Some(s) ==> first_shortcode(self@) == Some(s@),
    {
        if self.shortcodes.len() == 0 {
            None
        } else {
            Some(self.shortcodes[0].as_str())
        }
    }

    /// Every shortcode, in catalog-defined order.
    pub fn shortcodes(&self) -> (r: &Vec<String>)
        ensures
            r.deep_view() == self@.shortcodes,
    {
        &self.shortcodes
    }
}

impl core::cmp::PartialEq for Emoji {
    /// Equality is sequence equality: byte-for-byte the same scalar sequence.
    fn eq(&self, other: &Self) -> (r: bool) {
        self.sequence == other.sequence
    }
}

impl vstd::std_specs::cmp::PartialEqSpecImpl for Emoji {
    open spec fn obeys_eq_spec() -> bool {
        true
    }

    open spec fn eq_spec(&self, other: &Emoji) -> bool {
        self@.sequence == other@.sequence
    }
}

impl core::cmp::PartialEq<str> for Emoji {
    /// An emoji equals a string slice exactly when the slice is its backing
    /// sequence.
    fn eq(&self, other: &str) -> (r: bool) {
        let s = String::from_str(other);
        self.sequence == s
    }
}

impl vstd::std_specs::cmp::PartialEqSpecImpl<str> for Emoji {
    open spec fn obeys_eq_spec() -> bool {
        true
    }

    open spec fn eq_spec(&self, other: &str) -> bool {
        self@.sequence == other@
    }
}

impl core::cmp::PartialOrd for Emoji {
    /// Ordering compares catalog positions, never textual content: the
    /// catalog's canonical order is the only ordering source.
    fn partial_cmp(&self, other: &Self) -> (r: Option<core::cmp::Ordering>) {
        if self.id < other.id {
            Some(core::cmp::Ordering::Less)
        } else if other.id < self.id {
            Some(core::cmp::Ordering::Greater)
        } else {
            Some(core::cmp::Ordering::Equal)
        }
    }
}

impl vstd::std_specs::cmp::PartialOrdSpecImpl for Emoji {
    open spec fn obeys_partial_cmp_spec() -> bool {
        true
    }

    open spec fn partial_cmp_spec(&self, other: &Self) -> Option<core::cmp::Ordering> {
        if self@.id < other@.id {
            Some(core::cmp::Ordering::Less)
        } else if other@.id < self@.id {
            Some(core::cmp::Ordering::Greater)
        } else {
            Some(core::cmp::Ordering::Equal)
        }
    }
}

} // verus!

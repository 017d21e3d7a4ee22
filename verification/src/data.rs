//! The built-in catalog: the output of the external data-generation
//! pipeline, embedded as records and validated on construction.

use vstd::prelude::*;
use vstd::string::StringExecFns;

use crate::catalog::{seq_views, with_ids, wf_seq, Catalog};
use crate::emoji::{Emoji, EmojiView};
use crate::group::Group;
use crate::skin_tone::SkinTone;
use crate::version::UnicodeVersion;

verus! {

/// The image of the built-in catalog, record by record.
pub open spec fn standard_entries() -> Seq<EmojiView> {
    seq![
        EmojiView {
            id: 0,
            sequence: "\u{1f600}"@,
            group: Group::SmileysAndEmotion,
            subgroup: "face-smiling"@,
            shortcodes: seq!["grinning"@],
            version: (UnicodeVersion { major: 6, minor: 1 }),
            skin_tone: None,
        },
        EmojiView {
            id: 1,
            sequence: "\u{1f609}"@,
            group: Group::SmileysAndEmotion,
            subgroup: "face-smiling"@,
            shortcodes: seq!["wink"@, "winking_face"@],
            version: (UnicodeVersion { major: 6, minor: 0 }),
            skin_tone: None,
        },
        EmojiView {
            id: 2,
            sequence: "\u{2639}\u{fe0f}"@,
            group: Group::SmileysAndEmotion,
            subgroup: "face-concerned"@,
            shortcodes: seq!["frowning_face"@],
            version: (UnicodeVersion { major: 1, minor: 1 }),
            skin_tone: None,
        },
        EmojiView {
            id: 3,
            sequence: "\u{1f44b}"@,
            group: Group::PeopleAndBody,
            subgroup: "hand-fingers-open"@,
            shortcodes: seq!["wave"@],
            version: (UnicodeVersion { major: 6, minor: 0 }),
            skin_tone: Some(SkinTone::Default),
        },
        EmojiView {
            id: 4,
            sequence: "\u{1f44b}\u{1f3fb}"@,
            group: Group::PeopleAndBody,
            subgroup: "hand-fingers-open"@,
            shortcodes: Seq::empty(),
            version: (UnicodeVersion { major: 8, minor: 0 }),
            skin_tone: Some(SkinTone::Light),
        },
        EmojiView {
            id: 5,
            sequence: "\u{1f44b}\u{1f3fc}"@,
            group: Group::PeopleAndBody,
            subgroup: "hand-fingers-open"@,
            shortcodes: Seq::empty(),
            version: (UnicodeVersion { major: 8, minor: 0 }),
            skin_tone: Some(SkinTone::MediumLight),
        },
        EmojiView {
            id: 6,
            sequence: "\u{1f44b}\u{1f3fd}"@,
            group: Group::PeopleAndBody,
            subgroup: "hand-fingers-open"@,
            shortcodes: Seq::empty(),
            version: (UnicodeVersion { major: 8, minor: 0 }),
            skin_tone: Some(SkinTone::Medium),
        },
        EmojiView {
            id: 7,
            sequence: "\u{1f44b}\u{1f3fe}"@,
            group: Group::PeopleAndBody,
            subgroup: "hand-fingers-open"@,
            shortcodes: Seq::empty(),
            version: (UnicodeVersion { major: 8, minor: 0 }),
            skin_tone: Some(SkinTone::MediumDark),
        },
        EmojiView {
            id: 8,
            sequence: "\u{1f44b}\u{1f3ff}"@,
            group: Group::PeopleAndBody,
            subgroup: "hand-fingers-open"@,
            shortcodes: Seq::empty(),
            version: (UnicodeVersion { major: 8, minor: 0 }),
            skin_tone: Some(SkinTone::Dark),
        },
        EmojiView {
            id: 9,
            sequence: "\u{1f422}"@,
            group: Group::AnimalsAndNature,
            subgroup: "animal-reptile"@,
            shortcodes: seq!["turtle"@],
            version: (UnicodeVersion { major: 6, minor: 0 }),
            skin_tone: None,
        },
        EmojiView {
            id: 10,
            sequence: "\u{1f355}"@,
            group: Group::FoodAndDrink,
            subgroup: "food-prepared"@,
            shortcodes: seq!["pizza"@],
            version: (UnicodeVersion { major: 6, minor: 0 }),
            skin_tone: None,
        },
        EmojiView {
            id: 11,
            sequence: "\u{1f680}"@,
            group: Group::TravelAndPlaces,
            subgroup: "transport-air"@,
            shortcodes: seq!["rocket"@],
            version: (UnicodeVersion { major: 6, minor: 0 }),
            skin_tone: None,
        },
        EmojiView {
            id: 12,
            sequence: "\u{2b50}"@,
            group: Group::TravelAndPlaces,
            subgroup: "sky-and-weather"@,
            shortcodes: seq!["star"@],
            version: (UnicodeVersion { major: 5, minor: 1 }),
            skin_tone: None,
        },
        EmojiView {
            id: 13,
            sequence: "\u{26bd}"@,
            group: Group::Activities,
            subgroup: "sport"@,
            shortcodes: seq!["soccer"@],
            version: (UnicodeVersion { major: 5, minor: 2 }),
            skin_tone: None,
        },
        EmojiView {
            id: 14,
            sequence: "\u{1f4a1}"@,
            group: Group::Objects,
            subgroup: "light-and-video"@,
            shortcodes: seq!["bulb"@],
            version: (UnicodeVersion { major: 6, minor: 0 }),
            skin_tone: None,
        },
        EmojiView {
            id: 15,
            sequence: "\u{2705}"@,
            group: Group::Symbols,
            subgroup: "other-symbol"@,
            shortcodes: seq!["white_check_mark"@],
            version: (UnicodeVersion { major: 6, minor: 0 }),
            skin_tone: None,
        },
        EmojiView {
            id: 16,
            sequence: "\u{1f3c1}"@,
            group: Group::Flags,
            subgroup: "flag"@,
            shortcodes: seq!["checkered_flag"@],
            version: (UnicodeVersion { major: 6, minor: 0 }),
            skin_tone: None,
        },
    ]
}

/// An empty shortcode list.
fn codes0() -> (v: Vec<String>)
    ensures
        v.deep_view() == Seq::<Seq<char>>::empty(),
{
    let v: Vec<String> = Vec::new();
    proof {
        assert(v.deep_view() =~= Seq::<Seq<char>>::empty());
    }
    v
}

/// A one-element shortcode list.
fn codes1(a: &str) -> (v: Vec<String>)
    ensures
        v.deep_view() == seq![a@],
{
    let mut v: Vec<String> = Vec::new();
    v.push(String::from_str(a));
    proof {
        assert(v.deep_view() =~= seq![a@]);
    }
    v
}

/// A two-element shortcode list.
fn codes2(a: &str, b: &str) -> (v: Vec<String>)
    ensures
        v.deep_view() == seq![a@, b@],
{
    let mut v: Vec<String> = Vec::new();
    v.push(String::from_str(a));
    v.push(String::from_str(b));
    proof {
        assert(v.deep_view() =~= seq![a@, b@]);
    }
    v
}

/// The built-in records, in generation order, positions included.
fn build_entries() -> (v: Vec<Emoji>)
    ensures
        seq_views(v@) == standard_entries(),
{
    let mut v: Vec<Emoji> = Vec::new();
    v.push(Emoji::new(0, "\u{1f600}", Group::SmileysAndEmotion, "face-smiling",
        codes1("grinning"), UnicodeVersion::new(6, 1), None));
    v.push(Emoji::new(1, "\u{1f609}", Group::SmileysAndEmotion, "face-smiling",
        codes2("wink", "winking_face"), UnicodeVersion::new(6, 0), None));
    v.push(Emoji::new(2, "\u{2639}\u{fe0f}", Group::SmileysAndEmotion, "face-concerned",
        codes1("frowning_face"), UnicodeVersion::new(1, 1), None));
    v.push(Emoji::new(3, "\u{1f44b}", Group::PeopleAndBody, "hand-fingers-open",
        codes1("wave"), UnicodeVersion::new(6, 0), Some(SkinTone::Default)));
    v.push(Emoji::new(4, "\u{1f44b}\u{1f3fb}", Group::PeopleAndBody, "hand-fingers-open",
        codes0(), UnicodeVersion::new(8, 0), Some(SkinTone::Light)));
    v.push(Emoji::new(5, "\u{1f44b}\u{1f3fc}", Group::PeopleAndBody, "hand-fingers-open",
        codes0(), UnicodeVersion::new(8, 0), Some(SkinTone::MediumLight)));
    v.push(Emoji::new(6, "\u{1f44b}\u{1f3fd}", Group::PeopleAndBody, "hand-fingers-open",
        codes0(), UnicodeVersion::new(8, 0), Some(SkinTone::Medium)));
    v.push(Emoji::new(7, "\u{1f44b}\u{1f3fe}", Group::PeopleAndBody, "hand-fingers-open",
        codes0(), UnicodeVersion::new(8, 0), Some(SkinTone::MediumDark)));
    v.push(Emoji::new(8, "\u{1f44b}\u{1f3ff}", Group::PeopleAndBody, "hand-fingers-open",
        codes0(), UnicodeVersion::new(8, 0), Some(SkinTone::Dark)));
    v.push(Emoji::new(9, "\u{1f422}", Group::AnimalsAndNature, "animal-reptile",
        codes1("turtle"), UnicodeVersion::new(6, 0), None));
    v.push(Emoji::new(10, "\u{1f355}", Group::FoodAndDrink, "food-prepared",
        codes1("pizza"), UnicodeVersion::new(6, 0), None));
    v.push(Emoji::new(11, "\u{1f680}", Group::TravelAndPlaces, "transport-air",
        codes1("rocket"), UnicodeVersion::new(6, 0), None));
    v.push(Emoji::new(12, "\u{2b50}", Group::TravelAndPlaces, "sky-and-weather",
        codes1("star"), UnicodeVersion::new(5, 1), None));
    v.push(Emoji::new(13, "\u{26bd}", Group::Activities, "sport",
        codes1("soccer"), UnicodeVersion::new(5, 2), None));
    v.push(Emoji::new(14, "\u{1f4a1}", Group::Objects, "light-and-video",
        codes1("bulb"), UnicodeVersion::new(6, 0), None));
    v.push(Emoji::new(15, "\u{2705}", Group::Symbols, "other-symbol",
        codes1("white_check_mark"), UnicodeVersion::new(6, 0), None));
    v.push(Emoji::new(16, "\u{1f3c1}", Group::Flags, "flag",
        codes1("checkered_flag"), UnicodeVersion::new(6, 0), None));
    proof {
        assert(seq_views(v@) =~= standard_entries());
    }
    v
}

/// The built-in catalog image is well-formed: positions are faithful, no two
/// records share a sequence, categories are contiguous and in order, and the
/// one skin-tone family is complete.
#[verifier::rlimit(100)]
pub proof fn lemma_standard_wf()
    ensures
        wf_seq(standard_entries()),
{
    reveal_strlit("\u{1f600}");
    reveal_strlit("\u{1f609}");
    reveal_strlit("\u{2639}\u{fe0f}");
    reveal_strlit("\u{1f44b}");
    reveal_strlit("\u{1f44b}\u{1f3fb}");
    reveal_strlit("\u{1f44b}\u{1f3fc}");
    reveal_strlit("\u{1f44b}\u{1f3fd}");
    reveal_strlit("\u{1f44b}\u{1f3fe}");
    reveal_strlit("\u{1f44b}\u{1f3ff}");
    reveal_strlit("\u{1f422}");
    reveal_strlit("\u{1f355}");
    reveal_strlit("\u{1f680}");
    reveal_strlit("\u{2b50}");
    reveal_strlit("\u{26bd}");
    reveal_strlit("\u{1f4a1}");
    reveal_strlit("\u{2705}");
    reveal_strlit("\u{1f3c1}");
    let s = standard_entries();
    assert forall|i: int, j: int|
        0 <= i < s.len() && 0 <= j < s.len() && i != j implies (#[trigger] s[i]).sequence != (
    #[trigger] s[j]).sequence by {
        let a = s[i].sequence;
        let b = s[j].sequence;
        if a == b {
            assert(a.len() == b.len());
            assert(a[0] == b[0]);
            assert(a[1] == b[1]);
            assert(false);
        }
    }
}

/// The built-in catalog, exactly as generated: validated on construction,
/// then immutable for the rest of the process.
pub fn catalog() -> (c: Catalog)
    ensures
        c@ == standard_entries(),
        c.wf(),
{
    let v = build_entries();
    proof {
        lemma_standard_wf();
        assert(with_ids(seq_views(v@)) =~= seq_views(v@));
    }
    match Catalog::from_entries(&v) {
        Some(c) => c,
        None => unreached(),
    }
}

} // verus!

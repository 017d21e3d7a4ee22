//! The closed, ordered set of Unicode skin-tone modifiers.

use vstd::prelude::*;

verus! {

/// A skin tone, in the fixed order a skin-tone family presents its members:
/// `Default` (the unmodified form) first, then the five Fitzpatrick modifiers
/// from lightest to darkest.
#[derive(Clone, Copy, Debug, PartialEq, Eq, Structural, Hash)]
pub enum SkinTone {
    Default,
    Light,
    MediumLight,
    Medium,
    MediumDark,
    Dark,
}

/// The position of a tone within its family, `0` for `Default` through `5`
/// for `Dark`.
pub open spec fn tone_index(t: SkinTone) -> int {
    match t {
        SkinTone::Default => 0,
        SkinTone::Light => 1,
        SkinTone::MediumLight => 2,
        SkinTone::Medium => 3,
        SkinTone::MediumDark => 4,
        SkinTone::Dark => 5,
    }
}

/// The tone standing at a given position within a family; positions outside
/// `0..6` fall back to `Default`.
pub open spec fn tone_of_index(k: int) -> SkinTone {
    if k == 1 {
        SkinTone::Light
    } else if k == 2 {
        SkinTone::MediumLight
    } else if k == 3 {
        SkinTone::Medium
    } else if k == 4 {
        SkinTone::MediumDark
    } else if k == 5 {
        SkinTone::Dark
    } else {
        SkinTone::Default
    }
}

/// `tone_index` and `tone_of_index` are mutually inverse bijections between
/// the six tones and the positions `0..6`.
pub proof fn lemma_tone_index_bijective(t: SkinTone, k: int)
    ensures
        tone_of_index(tone_index(t)) == t,
        0 <= tone_index(t) < 6,
        0 <= k < 6 ==> tone_index(tone_of_index(k)) == k,
{
}

impl SkinTone {
    pub fn index(&self) -> (k: usize)
        ensures
            k == tone_index(*self),
    {
        match self {
            SkinTone::Default => 0,
            SkinTone::Light => 1,
            SkinTone::MediumLight => 2,
            SkinTone::Medium => 3,
            SkinTone::MediumDark => 4,
            SkinTone::Dark => 5,
        }
    }

    pub fn of_index(k: usize) -> (t: SkinTone)
        ensures
            t == tone_of_index(k as int),
    {
        if k == 1 {
            SkinTone::Light
        } else if k == 2 {
            SkinTone::MediumLight
        } else if k == 3 {
            SkinTone::Medium
        } else if k == 4 {
            SkinTone::MediumDark
        } else if k == 5 {
            SkinTone::Dark
        } else {
            SkinTone::Default
        }
    }
}

} // verus!

//! The closed, ordered set of top-level emoji categories.

use vstd::prelude::*;

verus! {

/// An emoji category, matching Unicode's official grouping, in the order the
/// catalog lays the categories out.
#[derive(Clone, Copy, Debug, PartialEq, Eq, Structural, Hash)]
pub enum Group {
    SmileysAndEmotion,
    PeopleAndBody,
    AnimalsAndNature,
    FoodAndDrink,
    TravelAndPlaces,
    Activities,
    Objects,
    Symbols,
    Flags,
}

/// The position of a category in the fixed category order.
pub open spec fn group_index(g: Group) -> int {
    match g {
        Group::SmileysAndEmotion => 0,
        Group::PeopleAndBody => 1,
        Group::AnimalsAndNature => 2,
        Group::FoodAndDrink => 3,
        Group::TravelAndPlaces => 4,
        Group::Activities => 5,
        Group::Objects => 6,
        Group::Symbols => 7,
        Group::Flags => 8,
    }
}

/// The category standing at a given position of the fixed order; positions
/// outside `0..9` fall back to the last category.
pub open spec fn group_of_index(k: int) -> Group {
    if k == 0 {
        Group::SmileysAndEmotion
    } else if k == 1 {
        Group::PeopleAndBody
    } else if k == 2 {
        Group::AnimalsAndNature
    } else if k == 3 {
        Group::FoodAndDrink
    } else if k == 4 {
        Group::TravelAndPlaces
    } else if k == 5 {
        Group::Activities
    } else if k == 6 {
        Group::Objects
    } else if k == 7 {
        Group::Symbols
    } else {
        Group::Flags
    }
}

/// `group_index` and `group_of_index` are mutually inverse bijections between
/// the categories and the positions `0..9`.
pub proof fn lemma_group_index_bijective(g: Group, k: int)
    ensures
        group_of_index(group_index(g)) == g,
        0 <= group_index(g) < 9,
        0 <= k < 9 ==> group_index(group_of_index(k)) == k,
{
}

impl Group {
    pub fn index(&self) -> (k: usize)
        ensures
            k == group_index(*self),
    {
        match self {
            Group::SmileysAndEmotion => 0,
            Group::PeopleAndBody => 1,
            Group::AnimalsAndNature => 2,
            Group::FoodAndDrink => 3,
            Group::TravelAndPlaces => 4,
            Group::Activities => 5,
            Group::Objects => 6,
            Group::Symbols => 7,
            Group::Flags => 8,
        }
    }

    pub fn of_index(k: usize) -> (g: Group)
        ensures
            g == group_of_index(k as int),
    {
        if k == 0 {
            Group::SmileysAndEmotion
        } else if k == 1 {
            Group::PeopleAndBody
        } else if k == 2 {
            Group::AnimalsAndNature
        } else if k == 3 {
            Group::FoodAndDrink
        } else if k == 4 {
            Group::TravelAndPlaces
        } else if k == 5 {
            Group::Activities
        } else if k == 6 {
            Group::Objects
        } else if k == 7 {
            Group::Symbols
        } else {
            Group::Flags
        }
    }

    /// Every category, in the fixed category order.
    pub fn iter() -> (v: Vec<Group>)
        ensures
            v@.len() == 9,
            forall|k: int| 0 <= k < 9 ==> #[trigger] v@[k] == group_of_index(k),
    {
        let mut v: Vec<Group> = Vec::new();
        v.push(Group::SmileysAndEmotion);
        v.push(Group::PeopleAndBody);
        v.push(Group::AnimalsAndNature);
        v.push(Group::FoodAndDrink);
        v.push(Group::TravelAndPlaces);
        v.push(Group::Activities);
        v.push(Group::Objects);
        v.push(Group::Symbols);
        v.push(Group::Flags);
        v
    }
}

} // verus!

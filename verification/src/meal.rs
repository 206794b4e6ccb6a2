//! Meal choices as answered at the eating prompt, and the food each
//! one consumes.

use vstd::prelude::*;

verus! {

#[derive(PartialEq, Eq, Structural, Debug, Clone, Copy)]
pub enum MealChoice {
    Unknown,
    Poorly,
    Moderately,
    Well,
}

/// The menu number each meal choice answers to; any other number is
/// `Unknown`.
pub open spec fn spec_meal_from_u32(value: u32) -> MealChoice {
    if value == 1 {
        MealChoice::Poorly
    } else if value == 2 {
        MealChoice::Moderately
    } else if value == 3 {
        MealChoice::Well
    } else {
        MealChoice::Unknown
    }
}

/// Units of food one meal consumes: a fixed base of 8 plus 5, 10 or
/// 15 with the meal's quality.
pub open spec fn spec_meal_food(meal: MealChoice) -> u32 {
    match meal {
        MealChoice::Poorly => (8 + 5) as u32,
        MealChoice::Moderately => (8 + 10) as u32,
        MealChoice::Well => (8 + 15) as u32,
        MealChoice::Unknown => 0u32,
    }
}

impl MealChoice {
    /// Maps a raw menu answer to a meal choice.
    pub fn from_u32(value: u32) -> (r: MealChoice)
        ensures
            r == spec_meal_from_u32(value),
    {
        match value {
            1 => MealChoice::Poorly,
            2 => MealChoice::Moderately,
            3 => MealChoice::Well,
            _ => MealChoice::Unknown,
        }
    }

    /// The food one meal of the given quality consumes; only an
    /// actual choice has a ration.
    pub fn to_food(meal: MealChoice) -> (r: u32)
        requires
            meal != MealChoice::Unknown,
        ensures
            r == spec_meal_food(meal),
    {
        match meal {
            MealChoice::Poorly => 8 + 5,
            MealChoice::Moderately => 8 + 10,
            MealChoice::Well => 8 + 15,
            MealChoice::Unknown => 0,
        }
    }
}

} // verus!

//! Decisions behind the interactive prompts.  Each function judges
//! one already-parsed answer; `None` means the answer was invalid and
//! the prompt should be put again.  Reading, parsing and printing
//! stay outside the core.

use vstd::prelude::*;
use crate::marksman::{spec_marksman_from_u32, MarksmanQuality};
use crate::meal::{spec_meal_from_u32, MealChoice};

verus! {

/// What the player does at a turn boundary.
#[derive(PartialEq, Eq, Structural, Debug, Clone, Copy)]
pub enum TurnAction {
    Fort,
    Hunt,
    Continue,
}

/// Decides one answer to the marksmanship prompt.
pub fn ask_marksman(answer: u32) -> (r: Option<MarksmanQuality>)
    ensures
        r == (if spec_marksman_from_u32(answer) == MarksmanQuality::Unknown {
            Option::<MarksmanQuality>::None
        } else {
            Option::Some(spec_marksman_from_u32(answer))
        }),
{
    let quality = MarksmanQuality::from_u32(answer);
    if quality == MarksmanQuality::Unknown {
        None
    } else {
        Some(quality)
    }
}

/// Decides one answer to the eating prompt.
pub fn ask_meal(answer: u32) -> (r: Option<MealChoice>)
    ensures
        r == (if spec_meal_from_u32(answer) == MealChoice::Unknown {
            Option::<MealChoice>::None
        } else {
            Option::Some(spec_meal_from_u32(answer))
        }),
{
    let meal = MealChoice::from_u32(answer);
    if meal == MealChoice::Unknown {
        None
    } else {
        Some(meal)
    }
}

/// Decides one answer when continuing is the only option.
pub fn ask_continue(answer: u32) -> (r: Option<TurnAction>)
    ensures
        r == (if answer == 1 {
            Option::Some(TurnAction::Continue)
        } else {
            Option::<TurnAction>::None
        }),
{
    if answer == 1 {
        Some(TurnAction::Continue)
    } else {
        None
    }
}

/// Decides one answer when hunting and continuing are offered.
pub fn ask_hunt_continue(answer: u32) -> (r: Option<TurnAction>)
    ensures
        r == (if answer == 1 {
            Option::Some(TurnAction::Hunt)
        } else if answer == 2 {
            Option::Some(TurnAction::Continue)
        } else {
            Option::<TurnAction>::None
        }),
{
    match answer {
        1 => Some(TurnAction::Hunt),
        2 => Some(TurnAction::Continue),
        _ => None,
    }
}

/// Decides one answer when a fort stop, hunting and continuing are
/// all offered.
pub fn ask_fort_hunt_continue(answer: u32) -> (r: Option<TurnAction>)
    ensures
        r == (if answer == 1 {
            Option::Some(TurnAction::Fort)
        } else if answer == 2 {
            Option::Some(TurnAction::Hunt)
        } else if answer == 3 {
            Option::Some(TurnAction::Continue)
        } else {
            Option::<TurnAction>::None
        }),
{
    match answer {
        1 => Some(TurnAction::Fort),
        2 => Some(TurnAction::Hunt),
        3 => Some(TurnAction::Continue),
        _ => None,
    }
}

} // verus!

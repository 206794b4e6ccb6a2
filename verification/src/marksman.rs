//! Marksmanship skill levels offered at the start of a game.

use vstd::prelude::*;

verus! {

#[derive(PartialEq, Eq, Structural, Debug, Clone, Copy)]
pub enum MarksmanQuality {
    Unknown,
    Ace,
    GoodShot,
    Fair,
    NeedPractice,
    Shaky,
}

/// The menu number each marksmanship level answers to; any other
/// number is `Unknown`.
pub open spec fn spec_marksman_from_u32(value: u32) -> MarksmanQuality {
    if value == 1 {
        MarksmanQuality::Ace
    } else if value == 2 {
        MarksmanQuality::GoodShot
    } else if value == 3 {
        MarksmanQuality::Fair
    } else if value == 4 {
        MarksmanQuality::NeedPractice
    } else if value == 5 {
        MarksmanQuality::Shaky
    } else {
        MarksmanQuality::Unknown
    }
}

impl MarksmanQuality {
    /// Maps a raw menu answer to a marksmanship level.
    pub fn from_u32(value: u32) -> (r: MarksmanQuality)
        ensures
            r == spec_marksman_from_u32(value),
    {
        match value {
            1 => MarksmanQuality::Ace,
            2 => MarksmanQuality::GoodShot,
            3 => MarksmanQuality::Fair,
            4 => MarksmanQuality::NeedPractice,
            5 => MarksmanQuality::Shaky,
            _ => MarksmanQuality::Unknown,
        }
    }
}

} // verus!

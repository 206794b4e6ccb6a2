//! Distance bookkeeping and the per-turn mileage formula.
//!
//! One turn gains `base + (oxen - 220) / (5 + roll)` miles, where
//! `roll` is a fresh uniform draw from 0 to 9 and the quotient is
//! truncated toward zero.  A draft-animal budget below 220 makes the
//! quotient negative; the arithmetic is done signed and never
//! underflows the unsigned total.

use vstd::prelude::*;
use vstd::arithmetic::div_mod::{
    lemma_div_is_ordered, lemma_div_is_ordered_by_denominator, lemma_div_pos_is_pos,
};
use crate::rng::random_below;

verus! {

/// Miles gained in one turn: `base` plus the draft-animal budget's
/// distance from 220, divided by 5 plus the roll, truncated toward
/// zero.
pub open spec fn spec_turn_miles(base: int, oxen: int, roll: int) -> int {
    if oxen >= 220 {
        base + (oxen - 220) / (5 + roll)
    } else {
        base - (220 - oxen) / (5 + roll)
    }
}

/// The turn delta, computed from an already-drawn roll.
pub fn turn_miles(base: u32, oxen: u32, roll: u32) -> (m: i64)
    requires
        roll < 10,
    ensures
        m == spec_turn_miles(base as int, oxen as int, roll as int),
{
    if oxen >= 220 {
        (base as i64) + (((oxen - 220) / (5 + roll)) as i64)
    } else {
        (base as i64) - (((220 - oxen) / (5 + roll)) as i64)
    }
}

/// Whatever the roll, one turn gains at most `base + oxen / 5` miles
/// and loses at most 44 miles against the base.
pub proof fn lemma_turn_miles_bounds(base: int, oxen: int, roll: int)
    requires
        0 <= oxen,
        0 <= roll < 10,
    ensures
        spec_turn_miles(base, oxen, roll) <= base + oxen / 5,
        spec_turn_miles(base, oxen, roll) >= base - 44,
        oxen < 220 ==> spec_turn_miles(base, oxen, roll) >= base - (220 - oxen) / 5,
{
    if oxen >= 220 {
        lemma_div_is_ordered_by_denominator(oxen - 220, 5, 5 + roll);
        lemma_div_is_ordered(oxen - 220, oxen, 5);
        lemma_div_pos_is_pos(oxen - 220, 5 + roll);
        lemma_div_pos_is_pos(oxen, 5);
    } else {
        lemma_div_is_ordered_by_denominator(220 - oxen, 5, 5 + roll);
        lemma_div_is_ordered(220 - oxen, 220, 5);
        lemma_div_pos_is_pos(220 - oxen, 5 + roll);
        lemma_div_pos_is_pos(oxen, 5);
    }
}

/// With a base of 200 miles, a 300-unit draft-animal budget always
/// gains strictly between 200 and 300 miles, and a 200-unit budget —
/// below the 220 threshold — gains between 196 and 199 miles: the
/// signed delta is small and the total never underflows.
pub proof fn lemma_turn_miles_window(roll: int)
    requires
        0 <= roll < 10,
    ensures
        200 < spec_turn_miles(200, 300, roll) < 300,
        196 <= spec_turn_miles(200, 200, roll) <= 199,
{
    lemma_div_is_ordered_by_denominator(80, 5, 5 + roll);
    lemma_div_is_ordered_by_denominator(80, 5 + roll, 14);
    lemma_div_is_ordered_by_denominator(20, 5, 5 + roll);
    lemma_div_is_ordered_by_denominator(20, 5 + roll, 14);
}

/// A running total of miles traveled.
pub struct Mileage {
    pub traveled: u32,
}

impl Mileage {
    /// Starts with no distance covered.
    pub fn new() -> (m: Mileage)
        ensures
            m.traveled == 0,
    {
        Mileage { traveled: 0 }
    }

    /// The miles traveled so far.
    pub fn traveled(&self) -> (r: u32)
        ensures
            r == self.traveled,
    {
        self.traveled
    }

    /// Covers a known number of miles.
    pub fn travel(&mut self, miles: u32)
        requires
            old(self).traveled + miles <= u32::MAX,
        ensures
            final(self).traveled == old(self).traveled + miles,
    {
        self.traveled = self.traveled + miles;
    }

    /// One turn of travel: adds the formula's delta for a fresh roll.
    pub fn turn(&mut self, miles: u32, oxen: u32)
        requires
            old(self).traveled + miles + (oxen as int) / 5 <= u32::MAX,
            oxen < 220 ==> old(self).traveled + miles >= (220 - oxen as int) / 5,
        ensures
            exists|roll: int|
                0 <= roll < 10 && final(self).traveled == old(self).traveled + spec_turn_miles(
                    miles as int,
                    oxen as int,
                    roll,
                ),
    {
        let roll = random_below(10);
        let delta = turn_miles(miles, oxen, roll);
        proof {
            lemma_turn_miles_bounds(miles as int, oxen as int, roll as int);
        }
        let total: i64 = (self.traveled as i64) + delta;
        self.traveled = total as u32;
        proof {
            assert(self.traveled == old(self).traveled + spec_turn_miles(
                miles as int,
                oxen as int,
                roll as int,
            ));
        }
    }

    /// Goes back or loses `miles` of progress; the caller must have
    /// covered them first.
    pub fn reverse(&mut self, miles: u32)
        requires
            miles <= old(self).traveled,
        ensures
            final(self).traveled == old(self).traveled - miles,
    {
        self.traveled = self.traveled - miles;
    }
}

} // verus!

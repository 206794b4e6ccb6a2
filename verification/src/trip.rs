//! The progression and health engine: cumulative distance, the
//! calendar date, the last meal's quality, and the outstanding-injury
//! flag, with the randomized turn and illness rules that drive them.

use vstd::prelude::*;
use vstd::string::StringExecFns;
use crate::date::{date_plus_days, spec_date_plus_days, Date};
use crate::mileage::{lemma_turn_miles_bounds, spec_turn_miles, turn_miles};
use crate::rng::random_below;
use crate::supplies::{BuyError, Supplies, UseError};

verus! {

/// How well the party ate at the last meal.
#[derive(PartialEq, Eq, Structural, Debug, Clone, Copy)]
pub enum MealChoice {
    Poorly,
    Moderately,
    Well,
}

/// How severe a rolled illness is.
#[derive(PartialEq, Eq, Structural, Debug, Clone, Copy)]
pub enum Illness {
    Mild,
    Bad,
    Serious,
}

/// The diet's severity tier: 1 for a poor meal up to 3 for a good
/// one.
pub open spec fn spec_eat(meal: MealChoice) -> int {
    match meal {
        MealChoice::Poorly => 1,
        MealChoice::Moderately => 2,
        MealChoice::Well => 3,
    }
}

/// Powers of four, for the illness-probability curve.
pub open spec fn spec_pow4(k: nat) -> int
    decreases k,
{
    if k == 0 {
        1
    } else {
        4 * spec_pow4((k - 1) as nat)
    }
}

/// A first roll below this bound resolves as a mild illness; a better
/// diet raises the bound.
pub open spec fn spec_mild_bound(meal: MealChoice) -> int {
    10 + 35 * (spec_eat(meal) - 1)
}

/// Failing the mild bound, a second roll below this bound resolves as
/// a bad illness and anything above it as serious; a better diet
/// raises the bound and so shrinks the serious tail.
pub open spec fn spec_bad_bound(meal: MealChoice) -> int {
    100int - 40int / spec_pow4((spec_eat(meal) - 1) as nat)
}

/// The illness produced by a diet and two uniform rolls from 0 to 99.
pub open spec fn spec_illness(meal: MealChoice, first: int, second: int) -> Illness {
    if first < spec_mild_bound(meal) {
        Illness::Mild
    } else if second < spec_bad_bound(meal) {
        Illness::Bad
    } else {
        Illness::Serious
    }
}

/// Severity as a number, mild lowest.
pub open spec fn spec_severity(i: Illness) -> int {
    match i {
        Illness::Mild => 0,
        Illness::Bad => 1,
        Illness::Serious => 2,
    }
}

/// The illness for a diet and an already-drawn pair of rolls.
pub fn illness_for_rolls(last_meal: MealChoice, first: u32, second: u32) -> (r: Illness)
    ensures
        r == spec_illness(last_meal, first as int, second as int),
{
    proof {
        assert(spec_pow4(0nat) == 1);
        assert(spec_pow4(1nat) == 4);
        assert(spec_pow4(2nat) == 16);
    }
    let mild_bound: u32 = match last_meal {
        MealChoice::Poorly => 10,
        MealChoice::Moderately => 45,
        MealChoice::Well => 80,
    };
    let bad_bound: u32 = match last_meal {
        MealChoice::Poorly => 60,
        MealChoice::Moderately => 90,
        MealChoice::Well => 98,
    };
    if first < mild_bound {
        Illness::Mild
    } else if second < bad_bound {
        Illness::Bad
    } else {
        Illness::Serious
    }
}

/// A better diet never worsens the outcome: on the same pair of
/// rolls, the illness severity under the better diet is at most the
/// severity under the worse one.
pub proof fn lemma_better_diet_never_escalates(
    worse: MealChoice,
    better: MealChoice,
    first: int,
    second: int,
)
    requires
        spec_eat(worse) <= spec_eat(better),
    ensures
        spec_severity(spec_illness(better, first, second)) <= spec_severity(
            spec_illness(worse, first, second),
        ),
{
    assert(spec_pow4(0nat) == 1);
    assert(spec_pow4(1nat) == 4);
    assert(spec_pow4(2nat) == 16);
}

/// The trip: distance, date and health state for one game.
pub struct Trip {
    pub miles_traveled: u32,
    pub current_date: Date,
    pub need_doctor: bool,
    pub health_issue: String,
    pub last_meal: MealChoice,
}

impl Trip {
    /// An outstanding injury always comes with a description of the
    /// issue.
    pub open spec fn wf(self) -> bool {
        self.need_doctor ==> self.health_issue@.len() > 0
    }

    /// A fresh trip: no distance, the fixed starting date, good
    /// health and a good last meal.
    pub fn new() -> (t: Trip)
        ensures
            t.miles_traveled == 0,
            t.current_date == (Date { year: 1847, month: 3, day: 29 }),
            t.need_doctor == false,
            t.health_issue@ == Seq::<char>::empty(),
            t.last_meal == MealChoice::Well,
            t.wf(),
    {
        Trip {
            miles_traveled: 0,
            current_date: Date { year: 1847, month: 3, day: 29 },
            need_doctor: false,
            health_issue: String::new(),
            last_meal: MealChoice::Well,
        }
    }

    /// The miles traveled so far.
    pub fn miles_traveled(&self) -> (r: u32)
        ensures
            r == self.miles_traveled,
    {
        self.miles_traveled
    }

    /// The current date of travel.
    pub fn current_date(&self) -> (r: Date)
        ensures
            r == self.current_date,
    {
        self.current_date
    }

    /// Covers a known number of miles; date and health are untouched.
    pub fn travel(&mut self, miles: u32)
        requires
            old(self).miles_traveled + miles <= u32::MAX,
        ensures
            final(self).miles_traveled == old(self).miles_traveled + miles,
            final(self).current_date == old(self).current_date,
            final(self).need_doctor == old(self).need_doctor,
            final(self).health_issue == old(self).health_issue,
            final(self).last_meal == old(self).last_meal,
            old(self).wf() ==> final(self).wf(),
    {
        self.miles_traveled = self.miles_traveled + miles;
    }

    /// Rolls an illness for the given diet: a first uniform draw from
    /// 0 to 99 against the mild bound, then — only if needed — a
    /// second independent draw against the bad bound.
    pub fn get_illness(&self, last_meal: MealChoice) -> (r: Illness)
        ensures
            exists|first: int, second: int|
                0 <= first < 100 && 0 <= second < 100 && r == spec_illness(
                    last_meal,
                    first,
                    second,
                ),
    {
        let first = random_below(100);
        let mild = match last_meal {
            MealChoice::Poorly => first < 10,
            MealChoice::Moderately => first < 45,
            MealChoice::Well => first < 80,
        };
        if mild {
            proof {
                assert(spec_illness(last_meal, first as int, 0) == Illness::Mild);
            }
            Illness::Mild
        } else {
            let second = random_below(100);
            illness_for_rolls(last_meal, first, second)
        }
    }

    /// Records an illness.  On success every severity stamps the
    /// health issue; mild and bad cost 5 miles and draw 2 or 5
    /// miscellaneous supplies, serious costs 10 miles and leaves the
    /// doctor owed.  The draw on supplies comes first: a failed draw
    /// is handed back unchanged and leaves both the trip and the
    /// ledger exactly as they were.
    pub fn got_sick(&mut self, illness: Illness, supplies: &mut Supplies) -> (r: Result<
        (),
        UseError,
    >)
        requires
            illness != Illness::Serious ==> old(self).miles_traveled >= 5,
            illness == Illness::Serious ==> old(self).miles_traveled >= 10,
        ensures
            final(self).current_date == old(self).current_date,
            final(self).last_meal == old(self).last_meal,
            old(self).wf() ==> final(self).wf(),
            final(supplies).money == old(supplies).money,
            final(supplies).oxen == old(supplies).oxen,
            final(supplies).food == old(supplies).food,
            final(supplies).ammo == old(supplies).ammo,
            final(supplies).clothes == old(supplies).clothes,
            final(supplies).cost_premium == old(supplies).cost_premium,
            r is Ok ==> final(self).health_issue@ == "illness"@ && final(self).wf() && final(self).need_doctor == (old(self).need_doctor || illness == Illness::Serious) && final(self).miles_traveled == old(self).miles_traveled - (if illness == Illness::Serious {
                10int
            } else {
                5int
            }),
            r is Err ==> *final(self) == *old(self) && *final(supplies) == *old(supplies),
            match illness {
                Illness::Mild => if old(supplies).misc >= 2 {
                    r is Ok && final(supplies).misc == old(supplies).misc - 2
                } else {
                    r == Result::<(), UseError>::Err(
                        (UseError { requested: 2, available: old(supplies).misc }),
                    )
                },
                Illness::Bad => if old(supplies).misc >= 5 {
                    r is Ok && final(supplies).misc == old(supplies).misc - 5
                } else {
                    r == Result::<(), UseError>::Err(
                        (UseError { requested: 5, available: old(supplies).misc }),
                    )
                },
                Illness::Serious => r is Ok && final(supplies).misc == old(supplies).misc,
            },
    {
        match illness {
            Illness::Mild => {
                match supplies.use_misc(2) {
                    Ok(_) => {},
                    Err(e) => {
                        return Err(e);
                    },
                }
                self.miles_traveled = self.miles_traveled - 5;
            },
            Illness::Bad => {
                match supplies.use_misc(5) {
                    Ok(_) => {},
                    Err(e) => {
                        return Err(e);
                    },
                }
                self.miles_traveled = self.miles_traveled - 5;
            },
            Illness::Serious => {
                self.miles_traveled = self.miles_traveled - 10;
                self.need_doctor = true;
            },
        }
        self.health_issue = String::from_str("illness");
        proof {
            reveal_strlit("illness");
        }
        Ok(())
    }

    /// Whether an injury still needs the doctor.
    pub fn need_doctor(&self) -> (r: bool)
        ensures
            r == self.need_doctor,
    {
        self.need_doctor
    }

    /// Describes the current health issue, or an empty string when
    /// none has been recorded.
    pub fn health_issue(&self) -> (s: String)
        ensures
            s@ == (if self.health_issue@.len() == 0 {
                Seq::<char>::empty()
            } else {
                "your "@ + self.health_issue@
            }),
    {
        if self.health_issue.as_str().is_empty() {
            String::new()
        } else {
            String::from_str("your ").concat(self.health_issue.as_str())
        }
    }

    /// Visits the doctor: a 20-unit fee heals the outstanding injury;
    /// too little money leaves everything, the injury included,
    /// unchanged, and the ledger's failure is handed back.
    pub fn visit_doctor(&mut self, supplies: &mut Supplies) -> (r: Result<(), BuyError>)
        ensures
            final(self).miles_traveled == old(self).miles_traveled,
            final(self).current_date == old(self).current_date,
            final(self).health_issue == old(self).health_issue,
            final(self).last_meal == old(self).last_meal,
            old(self).wf() ==> final(self).wf(),
            old(supplies).money >= 20 ==> r is Ok && final(self).need_doctor == false && final(supplies).money == old(supplies).money - 20 && final(supplies).oxen == old(supplies).oxen
                && final(supplies).food == old(supplies).food && final(supplies).ammo == old(supplies).ammo && final(supplies).clothes == old(supplies).clothes && final(supplies).misc
                == old(supplies).misc && final(supplies).cost_premium == old(supplies).cost_premium,
            old(supplies).money < 20 ==> r == Result::<(), BuyError>::Err(
                (BuyError {
                    min_required: 20,
                    max_allowed: 20,
                    requested: 20,
                    available: old(supplies).money,
                    reason: crate::supplies::BuyErrorType::InsufficientFunds,
                }),
            ) && final(self).need_doctor == old(self).need_doctor && *final(supplies) == *old(supplies),
    {
        match supplies.spend(20) {
            Ok(_) => {
                self.need_doctor = false;
                Ok(())
            },
            Err(e) => Err(e),
        }
    }

    /// One turn of the trip: travels the formula's miles for a fresh
    /// roll — 200 base miles adjusted by the draft-animal budget —
    /// and moves the date forward exactly 14 days.
    pub fn turn(&mut self, oxen: u32)
        requires
            old(self).miles_traveled + 200 + (oxen as int) / 5 <= u32::MAX,
        ensures
            exists|roll: int|
                0 <= roll < 10 && final(self).miles_traveled == old(self).miles_traveled
                    + spec_turn_miles(200, oxen as int, roll),
            final(self).current_date == spec_date_plus_days(old(self).current_date, 14),
            final(self).need_doctor == old(self).need_doctor,
            final(self).health_issue == old(self).health_issue,
            final(self).last_meal == old(self).last_meal,
            old(self).wf() ==> final(self).wf(),
    {
        let roll = random_below(10);
        let delta = turn_miles(200, oxen, roll);
        proof {
            lemma_turn_miles_bounds(200, oxen as int, roll as int);
        }
        let total: i64 = (self.miles_traveled as i64) + delta;
        self.miles_traveled = total as u32;
        self.current_date = date_plus_days(&self.current_date, 14);
        proof {
            assert(self.miles_traveled == old(self).miles_traveled + spec_turn_miles(
                200,
                oxen as int,
                roll as int,
            ));
        }
    }

    /// Goes back or loses `miles` of progress; the caller must have
    /// covered them first.
    pub fn reverse(&mut self, miles: u32)
        requires
            miles <= old(self).miles_traveled,
        ensures
            final(self).miles_traveled == old(self).miles_traveled - miles,
            final(self).current_date == old(self).current_date,
            final(self).need_doctor == old(self).need_doctor,
            final(self).health_issue == old(self).health_issue,
            final(self).last_meal == old(self).last_meal,
            old(self).wf() ==> final(self).wf(),
    {
        self.miles_traveled = self.miles_traveled - miles;
    }
}

} // verus!

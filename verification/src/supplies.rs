//! The economy ledger: money, per-category stock, and the purchase
//! rules that guard them.
//!
//! Every operation either fully succeeds or fails with a typed error
//! and leaves the ledger unchanged.  The cost premium is the fraction
//! of each non-animal purchase lost to markup, held in thousandths so
//! that a purchase of `spend` delivers
//! `floor(spend * (1000 - premium) / 1000)` units while the full
//! `spend` is deducted.

use vstd::prelude::*;
use vstd::arithmetic::div_mod::{lemma_div_by_multiple, lemma_div_is_ordered};
use vstd::string::StringExecFns;
use crate::text::{decimal_string, spec_decimal};

verus! {

/// Why a purchase was refused.
#[derive(PartialEq, Eq, Structural, Debug, Clone, Copy)]
pub enum BuyErrorType {
    TooLittle,
    TooMuch,
    InsufficientFunds,
}

/// A refused purchase, carrying enough data to render a message.
#[derive(PartialEq, Eq, Structural, Debug, Clone, Copy)]
pub struct BuyError {
    pub requested: u32,
    pub available: u32,
    pub min_required: u32,
    pub max_allowed: u32,
    pub reason: BuyErrorType,
}

/// A refused draw on stock: more units asked for than were left.
#[derive(PartialEq, Eq, Structural, Debug, Clone, Copy)]
pub struct UseError {
    pub requested: u32,
    pub available: u32,
}

/// The ledger.  Stock counts units purchased; consumption draws them
/// down through explicit `use` calls.
pub struct Supplies {
    pub money: u32,
    pub oxen: u32,
    pub food: u32,
    pub ammo: u32,
    pub clothes: u32,
    pub misc: u32,
    /// Thousandths of each non-animal purchase lost to markup.
    pub cost_premium: u32,
}

/// Units delivered when `spend` is paid at a premium of `premium`
/// thousandths: the premium shrinks what arrives, not what is paid.
pub open spec fn spec_received(spend: u32, premium: u32) -> int {
    (spend as int) * (1000 - premium as int) / 1000
}

/// A successful food purchase of `spend`: the stock gains the
/// delivered units, the money pays the full amount, and nothing else
/// moves.
pub open spec fn spec_buy_food_ok(pre: Supplies, post: Supplies, spend: u32) -> bool {
    &&& post.money == pre.money - spend
    &&& post.food == pre.food + spec_received(spend, pre.cost_premium)
    &&& post.oxen == pre.oxen
    &&& post.ammo == pre.ammo
    &&& post.clothes == pre.clothes
    &&& post.misc == pre.misc
    &&& post.cost_premium == pre.cost_premium
}

/// The delivered units never exceed what was paid.
proof fn lemma_received_le_spend(spend: u32, premium: u32)
    requires
        premium < 1000,
    ensures
        0 <= spec_received(spend, premium) <= spend,
{
    assert((spend as int) * (1000 - premium as int) <= (spend as int) * 1000) by (nonlinear_arith)
        requires
            0 <= (1000 - premium as int) <= 1000,
            0 <= spend,
    ;
    assert((spend as int) * (1000 - premium as int) >= 0) by (nonlinear_arith)
        requires
            0 <= (1000 - premium as int),
            0 <= spend,
    ;
    lemma_div_is_ordered((spend as int) * (1000 - premium as int), (spend as int) * 1000, 1000);
    lemma_div_by_multiple(spend as int, 1000);
    lemma_div_is_ordered(0, (spend as int) * (1000 - premium as int), 1000);
}

/// With no premium the delivered units equal the amount paid.
pub proof fn lemma_received_zero_premium(spend: u32)
    ensures
        spec_received(spend, 0) == spend,
{
    lemma_div_by_multiple(spend as int, 1000);
}

/// Delivered units for `spend` at the held premium.
fn received_units(spend: u32, premium: u32) -> (r: u32)
    requires
        premium < 1000,
    ensures
        r == spec_received(spend, premium),
        r <= spend,
{
    proof {
        lemma_received_le_spend(spend, premium);
    }
    let wide: u64 = (spend as u64) * ((1000 - premium) as u64);
    let q: u64 = wide / 1000;
    q as u32
}

impl Supplies {
    /// The ledger never holds more in money and stock together than a
    /// `u32` can count, and its premium is a fraction below one.
    pub open spec fn wf(self) -> bool {
        &&& self.cost_premium < 1000
        &&& self.money + self.oxen + self.food + self.ammo + self.clothes + self.misc
            <= u32::MAX
    }

    /// A fresh ledger: the fixed initial stake and empty stock.
    pub fn new() -> (s: Supplies)
        ensures
            s.money == 700,
            s.oxen == 0,
            s.food == 0,
            s.ammo == 0,
            s.clothes == 0,
            s.misc == 0,
            s.cost_premium == 0,
            s.wf(),
    {
        Supplies {
            money: 700,
            oxen: 0,
            food: 0,
            ammo: 0,
            clothes: 0,
            misc: 0,
            cost_premium: 0,
        }
    }

    /// Replaces the premium used by later purchases; stock and money
    /// are untouched.
    pub fn set_premium(&mut self, premium: u32)
        requires
            premium < 1000,
        ensures
            final(self).cost_premium == premium,
            final(self).money == old(self).money,
            final(self).oxen == old(self).oxen,
            final(self).food == old(self).food,
            final(self).ammo == old(self).ammo,
            final(self).clothes == old(self).clothes,
            final(self).misc == old(self).misc,
    {
        self.cost_premium = premium;
    }

    pub fn money_left(&self) -> (r: u32)
        ensures
            r == self.money,
    {
        self.money
    }

    /// A pure debit for services: fails, changing nothing, exactly
    /// when the amount exceeds the money left.
    pub fn spend(&mut self, spend: u32) -> (r: Result<(), BuyError>)
        ensures
            spend > old(self).money ==> r == Result::<(), BuyError>::Err(
                (BuyError {
                    min_required: 20,
                    max_allowed: 20,
                    requested: spend,
                    available: old(self).money,
                    reason: BuyErrorType::InsufficientFunds,
                }),
            ) && *final(self) == *old(self),
            spend <= old(self).money ==> r is Ok && final(self).money == old(self).money - spend
                && final(self).oxen == old(self).oxen && final(self).food == old(self).food
                && final(self).ammo == old(self).ammo && final(self).clothes == old(self).clothes && final(self).misc == old(self).misc && final(self).cost_premium == old(self).cost_premium,
    {
        if spend > self.money {
            return Err(
                BuyError {
                    min_required: 20,
                    max_allowed: 20,
                    requested: spend,
                    available: self.money,
                    reason: BuyErrorType::InsufficientFunds,
                },
            );
        }
        self.money = self.money - spend;
        Ok(())
    }

    /// Draws down miscellaneous stock: fails, changing nothing,
    /// exactly when more units are asked for than are left.
    pub fn use_misc(&mut self, amount: u32) -> (r: Result<(), UseError>)
        ensures
            amount > old(self).misc ==> r == Result::<(), UseError>::Err(
                (UseError { requested: amount, available: old(self).misc }),
            ) && *final(self) == *old(self),
            amount <= old(self).misc ==> r is Ok && final(self).misc == old(self).misc - amount
                && final(self).money == old(self).money && final(self).oxen == old(self).oxen
                && final(self).food == old(self).food && final(self).ammo == old(self).ammo
                && final(self).clothes == old(self).clothes && final(self).cost_premium == old(self).cost_premium,
    {
        if amount > self.misc {
            return Err(UseError { requested: amount, available: self.misc });
        }
        self.misc = self.misc - amount;
        Ok(())
    }

    pub fn oxen_left(&self) -> (r: u32)
        ensures
            r == self.oxen,
    {
        self.oxen
    }

    pub fn food_left(&self) -> (r: u32)
        ensures
            r == self.food,
    {
        self.food
    }

    pub fn ammo_left(&self) -> (r: u32)
        ensures
            r == self.ammo,
    {
        self.ammo
    }

    pub fn clothes_left(&self) -> (r: u32)
        ensures
            r == self.clothes,
    {
        self.clothes
    }

    pub fn misc_left(&self) -> (r: u32)
        ensures
            r == self.misc,
    {
        self.misc
    }

    /// Buys draft animals.  Affordability is checked before the
    /// 200..=300 range, so an amount that is both unaffordable and out
    /// of range reports insufficient funds.  The animals carry no
    /// premium: the full amount is paid and the full amount arrives.
    pub fn buy_oxen(&mut self, spend: u32) -> (r: Result<(), BuyError>)
        requires
            old(self).wf(),
        ensures
            final(self).wf(),
            spend > old(self).money ==> r == Result::<(), BuyError>::Err(
                (BuyError {
                    min_required: 200,
                    max_allowed: 300,
                    requested: spend,
                    available: old(self).money,
                    reason: BuyErrorType::InsufficientFunds,
                }),
            ) && *final(self) == *old(self),
            spend <= old(self).money && spend < 200 ==> r == Result::<(), BuyError>::Err(
                (BuyError {
                    min_required: 200,
                    max_allowed: 300,
                    requested: spend,
                    available: old(self).money,
                    reason: BuyErrorType::TooLittle,
                }),
            ) && *final(self) == *old(self),
            spend <= old(self).money && spend > 300 ==> r == Result::<(), BuyError>::Err(
                (BuyError {
                    min_required: 200,
                    max_allowed: 300,
                    requested: spend,
                    available: old(self).money,
                    reason: BuyErrorType::TooMuch,
                }),
            ) && *final(self) == *old(self),
            spend <= old(self).money && 200 <= spend <= 300 ==> r is Ok && final(self).oxen == old(self).oxen + spend && final(self).money == old(self).money - spend && final(self).food
                == old(self).food && final(self).ammo == old(self).ammo && final(self).clothes
                == old(self).clothes && final(self).misc == old(self).misc && final(self).cost_premium == old(self).cost_premium,
    {
        if spend > self.money {
            return Err(
                BuyError {
                    min_required: 200,
                    max_allowed: 300,
                    requested: spend,
                    available: self.money,
                    reason: BuyErrorType::InsufficientFunds,
                },
            );
        } else if spend < 200 {
            return Err(
                BuyError {
                    min_required: 200,
                    max_allowed: 300,
                    requested: spend,
                    available: self.money,
                    reason: BuyErrorType::TooLittle,
                },
            );
        } else if spend > 300 {
            return Err(
                BuyError {
                    min_required: 200,
                    max_allowed: 300,
                    requested: spend,
                    available: self.money,
                    reason: BuyErrorType::TooMuch,
                },
            );
        }
        self.oxen = self.oxen + spend;
        self.money = self.money - spend;
        Ok(())
    }

    /// Buys food: any affordable amount is accepted, zero included.
    /// The delivered units are shrunk by the premium; the full amount
    /// is paid.
    pub fn buy_food(&mut self, spend: u32) -> (r: Result<(), BuyError>)
        requires
            old(self).wf(),
        ensures
            final(self).wf(),
            spend > old(self).money ==> r == Result::<(), BuyError>::Err(
                (BuyError {
                    min_required: 0,
                    max_allowed: old(self).money,
                    requested: spend,
                    available: old(self).money,
                    reason: BuyErrorType::InsufficientFunds,
                }),
            ) && *final(self) == *old(self),
            spend <= old(self).money ==> r is Ok && spec_buy_food_ok(
                *old(self),
                *final(self),
                spend,
            ),
    {
        if spend > self.money {
            return Err(
                BuyError {
                    min_required: 0,
                    max_allowed: self.money,
                    requested: spend,
                    available: self.money,
                    reason: BuyErrorType::InsufficientFunds,
                },
            );
        }
        let gained = received_units(spend, self.cost_premium);
        self.food = self.food + gained;
        self.money = self.money - spend;
        Ok(())
    }

    /// Buys ammunition, under the same rules as food.
    pub fn buy_ammo(&mut self, spend: u32) -> (r: Result<(), BuyError>)
        requires
            old(self).wf(),
        ensures
            final(self).wf(),
            spend > old(self).money ==> r == Result::<(), BuyError>::Err(
                (BuyError {
                    min_required: 0,
                    max_allowed: old(self).money,
                    requested: spend,
                    available: old(self).money,
                    reason: BuyErrorType::InsufficientFunds,
                }),
            ) && *final(self) == *old(self),
            spend <= old(self).money ==> r is Ok && final(self).ammo == old(self).ammo
                + spec_received(spend, old(self).cost_premium) && final(self).money == old(self).money - spend && final(self).oxen == old(self).oxen && final(self).food == old(self).food && final(self).clothes == old(self).clothes && final(self).misc == old(self).misc && final(self).cost_premium == old(self).cost_premium,
    {
        if spend > self.money {
            return Err(
                BuyError {
                    min_required: 0,
                    max_allowed: self.money,
                    requested: spend,
                    available: self.money,
                    reason: BuyErrorType::InsufficientFunds,
                },
            );
        }
        let gained = received_units(spend, self.cost_premium);
        self.ammo = self.ammo + gained;
        self.money = self.money - spend;
        Ok(())
    }

    /// Buys clothing, under the same rules as food.
    pub fn buy_clothes(&mut self, spend: u32) -> (r: Result<(), BuyError>)
        requires
            old(self).wf(),
        ensures
            final(self).wf(),
            spend > old(self).money ==> r == Result::<(), BuyError>::Err(
                (BuyError {
                    min_required: 0,
                    max_allowed: old(self).money,
                    requested: spend,
                    available: old(self).money,
                    reason: BuyErrorType::InsufficientFunds,
                }),
            ) && *final(self) == *old(self),
            spend <= old(self).money ==> r is Ok && final(self).clothes == old(self).clothes
                + spec_received(spend, old(self).cost_premium) && final(self).money == old(self).money - spend && final(self).oxen == old(self).oxen && final(self).food == old(self).food && final(self).ammo == old(self).ammo && final(self).misc == old(self).misc
                && final(self).cost_premium == old(self).cost_premium,
    {
        if spend > self.money {
            return Err(
                BuyError {
                    min_required: 0,
                    max_allowed: self.money,
                    requested: spend,
                    available: self.money,
                    reason: BuyErrorType::InsufficientFunds,
                },
            );
        }
        let gained = received_units(spend, self.cost_premium);
        self.clothes = self.clothes + gained;
        self.money = self.money - spend;
        Ok(())
    }

    /// Buys miscellaneous supplies, under the same rules as food.
    pub fn buy_misc(&mut self, spend: u32) -> (r: Result<(), BuyError>)
        requires
            old(self).wf(),
        ensures
            final(self).wf(),
            spend > old(self).money ==> r == Result::<(), BuyError>::Err(
                (BuyError {
                    min_required: 0,
                    max_allowed: old(self).money,
                    requested: spend,
                    available: old(self).money,
                    reason: BuyErrorType::InsufficientFunds,
                }),
            ) && *final(self) == *old(self),
            spend <= old(self).money ==> r is Ok && final(self).misc == old(self).misc
                + spec_received(spend, old(self).cost_premium) && final(self).money == old(self).money - spend && final(self).oxen == old(self).oxen && final(self).food == old(self).food && final(self).ammo == old(self).ammo && final(self).clothes == old(self).clothes && final(self).cost_premium == old(self).cost_premium,
    {
        if spend > self.money {
            return Err(
                BuyError {
                    min_required: 0,
                    max_allowed: self.money,
                    requested: spend,
                    available: self.money,
                    reason: BuyErrorType::InsufficientFunds,
                },
            );
        }
        let gained = received_units(spend, self.cost_premium);
        self.misc = self.misc + gained;
        self.money = self.money - spend;
        Ok(())
    }

    /// What the status line says: the five column headers, then food,
    /// ammunition, clothing, miscellaneous stock and money, in that
    /// fixed order.
    pub open spec fn spec_status(self) -> Seq<char> {
        "\t\x1B[36mFood\x1B[0m\t\x1B[35mAmmo\x1B[0m\t\x1B[34mClothes\x1B[0m\t\x1B[33mMisc\x1B[0m\t\x1B[32mMoney\x1B[0m\n\t"@
            + spec_decimal(self.food as int) + "\t"@ + spec_decimal(self.ammo as int) + "\t"@
            + spec_decimal(self.clothes as int) + "\t"@ + spec_decimal(self.misc as int) + "\t"@
            + spec_decimal(self.money as int) + "\n"@
    }

    /// Renders the status line.
    pub fn status_line(&self) -> (s: String)
        ensures
            s@ == self.spec_status(),
    {
        let mut s = String::from_str(
            "\t\x1B[36mFood\x1B[0m\t\x1B[35mAmmo\x1B[0m\t\x1B[34mClothes\x1B[0m\t\x1B[33mMisc\x1B[0m\t\x1B[32mMoney\x1B[0m\n\t",
        );
        s.append(decimal_string(self.food).as_str());
        s.append("\t");
        s.append(decimal_string(self.ammo).as_str());
        s.append("\t");
        s.append(decimal_string(self.clothes).as_str());
        s.append("\t");
        s.append(decimal_string(self.misc).as_str());
        s.append("\t");
        s.append(decimal_string(self.money).as_str());
        s.append("\n");
        proof {
            assert(s@ =~= self.spec_status());
        }
        s
    }
}

impl BuyError {
    /// What the failure message says for each reason.
    pub open spec fn spec_message(self) -> Seq<char> {
        match self.reason {
            BuyErrorType::TooLittle => "\tYou must spend at least $"@ + spec_decimal(
                self.min_required as int,
            ),
            BuyErrorType::TooMuch => "\tYou may not spend more than $"@ + spec_decimal(
                self.max_allowed as int,
            ),
            BuyErrorType::InsufficientFunds => "\tUnable to spend $"@ + spec_decimal(
                self.requested as int,
            ) + ", you only have $"@ + spec_decimal(self.available as int) + " available."@,
        }
    }

    /// Renders the failure message.
    pub fn message(&self) -> (s: String)
        ensures
            s@ == self.spec_message(),
    {
        match self.reason {
            BuyErrorType::TooLittle => {
                let mut s = String::from_str("\tYou must spend at least $");
                s.append(decimal_string(self.min_required).as_str());
                proof {
                    assert(s@ =~= self.spec_message());
                }
                s
            },
            BuyErrorType::TooMuch => {
                let mut s = String::from_str("\tYou may not spend more than $");
                s.append(decimal_string(self.max_allowed).as_str());
                proof {
                    assert(s@ =~= self.spec_message());
                }
                s
            },
            BuyErrorType::InsufficientFunds => {
                let mut s = String::from_str("\tUnable to spend $");
                s.append(decimal_string(self.requested).as_str());
                s.append(", you only have $");
                s.append(decimal_string(self.available).as_str());
                s.append(" available.");
                proof {
                    assert(s@ =~= self.spec_message());
                }
                s
            },
        }
    }
}

/// Two food purchases accumulate: the stock gains both deliveries and
/// the money pays both amounts; with no premium the stock gains
/// exactly the amounts paid.
pub proof fn lemma_purchases_accumulate(s0: Supplies, s1: Supplies, s2: Supplies, a: u32, b: u32)
    requires
        spec_buy_food_ok(s0, s1, a),
        spec_buy_food_ok(s1, s2, b),
    ensures
        s2.food == s0.food + spec_received(a, s0.cost_premium) + spec_received(
            b,
            s0.cost_premium,
        ),
        s2.money == s0.money - a - b,
        s0.cost_premium == 0 ==> s2.food == s0.food + a + b,
{
    if s0.cost_premium == 0 {
        lemma_received_zero_premium(a);
        lemma_received_zero_premium(b);
    }
}

} // verus!

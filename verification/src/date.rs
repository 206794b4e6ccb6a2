//! Calendar dates held as plain year, month and day numbers; the
//! calendar arithmetic itself is chrono's.

use vstd::prelude::*;
use chrono::Datelike;

verus! {

/// A calendar date as plain numbers.
#[derive(PartialEq, Eq, Structural, Debug, Clone, Copy)]
pub struct Date {
    pub year: i32,
    pub month: u32,
    pub day: u32,
}

/// The calendar date `n` days after `d`.
pub uninterp spec fn spec_date_plus_days(d: Date, n: int) -> Date;

/// Relies on chrono's NaiveDate::checked_add_signed (reached through
/// NaiveDate::from_ymd_opt and TimeDelta::days): the date a given
/// number of days later is a function of the date and the count
/// alone.  A date chrono cannot represent comes back unchanged.
#[verifier::external_body]
pub(crate) fn date_plus_days(d: &Date, n: u32) -> (r: Date)
    ensures
        r == spec_date_plus_days(*d, n as int),
{
    match chrono::NaiveDate::from_ymd_opt(d.year, d.month, d.day)
        .and_then(|nd| nd.checked_add_signed(chrono::Duration::days(n as i64)))
    {
        Some(nd) => Date { year: nd.year(), month: nd.month(), day: nd.day() },
        None => *d,
    }
}

} // verus!

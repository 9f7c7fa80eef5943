//! Calendar days, written as day numbers: January 1 of year 1 is day 1, and
//! consecutive days have consecutive numbers (the numbering of chrono's
//! `Datelike::num_days_from_ce`).

use vstd::prelude::*;
use chrono::Datelike;

verus! {

/// The number of `NaiveDate::MIN`, January 1 of year -262143.
pub const MIN_DAY: i32 = -95746129;

/// The number of `NaiveDate::MAX`, December 31 of year 262142.
pub const MAX_DAY: i32 = 95745399;

/// Whether a day number names a date that chrono can represent.
pub open spec fn valid_day(day: int) -> bool {
    MIN_DAY <= day <= MAX_DAY
}

/// The local calendar date of the moment of the call, from
/// `chrono::Local::now().date_naive()`, as a day number. Of the result the
/// contract claims only what holds of every `NaiveDate`: it lies within the
/// range chrono can represent. Which day it is rests on the clock.
#[verifier::external_body]
pub fn today() -> (day: i32)
    ensures
        valid_day(day as int),
{
    chrono::Local::now().date_naive().num_days_from_ce()
}

/// The date `days` days after `day` (before it, for a negative count), by
/// `NaiveDate + TimeDelta::days(..)`. chrono panics where the sum leaves its
/// range; `requires` leaves those inputs out, and on the others the result is
/// the plain sum of the day numbers.
#[verifier::external_body]
pub fn add_days(day: i32, days: i32) -> (later: i32)
    requires
        valid_day(day as int),
        valid_day(day + days),
    ensures
        later == day + days,
{
    let date = chrono::NaiveDate::from_num_days_from_ce_opt(day).unwrap();
    (date + chrono::TimeDelta::days(days as i64)).num_days_from_ce()
}

} // verus!

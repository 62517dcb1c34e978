//! Conversion of spreadsheet serial day counts to Unix timestamps.
//!
//! A serial day count `n` names the day `n - 2` days after 1900-01-01: the
//! offset of two corrects the spreadsheet format's historic epoch. The Unix
//! timestamp is the number of seconds from 1970-01-01 to the start of that day.
use vstd::prelude::*;
use chrono::Datelike;

verus! {

pub const SECONDS_PER_DAY: i64 = 86400;

/// Days between the spreadsheet epoch and the day a serial count names.
pub const EPOCH_CORRECTION_DAYS: i64 = 2;

pub open spec fn is_leap_year(y: int) -> bool {
    y % 4 == 0 && (y % 100 != 0 || y % 400 == 0)
}

pub open spec fn days_in_month(y: int, m: int) -> int {
    if m == 2 {
        if is_leap_year(y) {
            29
        } else {
            28
        }
    } else if m == 4 || m == 6 || m == 9 || m == 11 {
        30
    } else {
        31
    }
}

/// Days of year `y` before the first of month `m`.
pub open spec fn days_before_month(y: int, m: int) -> int
    decreases m,
{
    if m <= 1 {
        0
    } else {
        days_before_month(y, m - 1) + days_in_month(y, m - 1)
    }
}

/// Day number of a date in the proleptic Gregorian calendar, with
/// January 1 of year 1 as day 1.
pub open spec fn days_from_ce(y: int, m: int, d: int) -> int {
    let p = y - 1;
    365 * p + p / 4 - p / 100 + p / 400 + days_before_month(y, m) + d
}

/// A date that exists and lies in the range of years that chrono represents.
pub open spec fn is_calendar_date(y: int, m: int, d: int) -> bool {
    -262143 <= y <= 262142 && 1 <= m <= 12 && 1 <= d <= days_in_month(y, m)
}

/// Relies on chrono's `NaiveDate::from_ymd_opt`, which gives a date exactly
/// for existing days in its year range, and `Datelike::num_days_from_ce`,
/// which counts days from January 1 of year 1 as day 1.
#[verifier::external_body]
fn day_number(year: i32, month: u32, day: u32) -> (r: Option<i32>)
    ensures
        r == (if is_calendar_date(year as int, month as int, day as int) {
            Some(days_from_ce(year as int, month as int, day as int) as i32)
        } else {
            None
        }),
{
    chrono::NaiveDate::from_ymd_opt(year, month, day).map(|d| d.num_days_from_ce())
}

/// Seconds from 1970-01-01 to the day that a serial count names.
pub open spec fn serial_seconds(serial: int) -> int {
    (serial - EPOCH_CORRECTION_DAYS + days_from_ce(1900, 1, 1) - days_from_ce(1970, 1, 1))
        * SECONDS_PER_DAY
}

pub open spec fn fits_i64(x: int) -> bool {
    i64::MIN <= x <= i64::MAX
}

/// The Unix timestamp of the day that `serial_date` names, or `None` when it
/// does not fit in an `i64`.
pub fn excel_date_to_unix_timestamp(serial_date: i64) -> (r: Option<i64>)
    ensures
        r == (if fits_i64(serial_seconds(serial_date as int)) {
            Some(serial_seconds(serial_date as int) as i64)
        } else {
            None
        }),
{
    let excel_epoch = day_number(1900, 1, 1);
    let unix_epoch = day_number(1970, 1, 1);
    assert(days_from_ce(1900, 1, 1) == 693596);
    assert(days_from_ce(1970, 1, 1) == 719163);
    match (excel_epoch, unix_epoch) {
        (Some(e), Some(u)) => {
            let days: i128 = serial_date as i128 - EPOCH_CORRECTION_DAYS as i128 + e as i128
                - u as i128;
            assert(-0x1_0000_0000_0000_0000 < days < 0x1_0000_0000_0000_0000);
            assert(-0x100_0000_0000_0000_0000_0000 < days * 86400 < 0x100_0000_0000_0000_0000_0000)
                by (nonlinear_arith)
                requires
                    -0x1_0000_0000_0000_0000 < days < 0x1_0000_0000_0000_0000,
            ;
            let seconds: i128 = days * SECONDS_PER_DAY as i128;
            if seconds < i64::MIN as i128 || seconds > i64::MAX as i128 {
                None
            } else {
                Some(seconds as i64)
            }
        },
        _ => None,
    }
}

/// The commit time of a record: the converted creation date, or the Unix
/// epoch when the date is missing or out of range.
pub open spec fn commit_time_of(serial: Option<i64>) -> i64 {
    match serial {
        Some(s) => if fits_i64(serial_seconds(s as int)) {
            serial_seconds(s as int) as i64
        } else {
            0
        },
        None => 0,
    }
}

pub fn commit_unix_time(serial_date: Option<i64>) -> (r: i64)
    ensures
        r == commit_time_of(serial_date),
{
    match serial_date {
        Some(s) => match excel_date_to_unix_timestamp(s) {
            Some(t) => t,
            None => 0,
        },
        None => 0,
    }
}

/// A later serial day never converts to an earlier timestamp.
pub proof fn lemma_conversion_monotonic(a: int, b: int)
    requires
        a <= b,
    ensures
        serial_seconds(a) <= serial_seconds(b),
{
}

} // verus!

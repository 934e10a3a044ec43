//! The civil (proleptic Gregorian, UTC) date and time of a Unix timestamp,
//! as block provenance records it.

use vstd::prelude::*;

verus! {

/// Whether `y` is a leap year.
pub open spec fn is_leap_year(y: int) -> bool {
    (y % 4 == 0 && y % 100 != 0) || y % 400 == 0
}

/// The number of days in year `y`.
pub open spec fn year_days(y: int) -> int {
    if is_leap_year(y) {
        366
    } else {
        365
    }
}

/// The number of days in month `m` (1-based) of year `y`.
pub open spec fn month_days(y: int, m: int) -> int {
    if m == 2 {
        if is_leap_year(y) {
            29
        } else {
            28
        }
    } else if m == 4 || m == 6 || m == 9 || m == 11 {
        30
    } else {
        31
    }
}

/// Days from 1970-01-01 to the first day of year `y` (`y >= 1970`).
pub open spec fn days_before_year(y: int) -> int
    decreases y - 1970,
{
    if y <= 1970 {
        0
    } else {
        days_before_year(y - 1) + year_days(y - 1)
    }
}

/// Days from the first day of year `y` to the first day of month `m`.
pub open spec fn days_before_month(y: int, m: int) -> int
    decreases m,
{
    if m <= 1 {
        0
    } else {
        days_before_month(y, m - 1) + month_days(y, m - 1)
    }
}

/// A civil date and time of day.
#[derive(Debug, Clone, Copy, PartialEq, Eq, Structural)]
pub struct CivilTime {
    /// The year.
    pub year: u64,
    /// The month, 1 to 12.
    pub month: u64,
    /// The day of the month, from 1.
    pub day: u64,
    /// The hour, 0 to 23.
    pub hour: u64,
    /// The minute, 0 to 59.
    pub minute: u64,
    /// The second, 0 to 59.
    pub second: u64,
}

/// The Gregorian month lengths: January 31, February 28 (29 in a leap
/// year), March 31, April 30, May 31, June 30, July 31, August 31,
/// September 30, October 31, November 30, December 31; and the leap years
/// are those divisible by 4, except centuries not divisible by 400.
pub proof fn law_gregorian_months(y: int)
    ensures
        month_days(y, 1) == 31,
        month_days(y, 2) == (if is_leap_year(y) {
            29int
        } else {
            28int
        }),
        month_days(y, 3) == 31,
        month_days(y, 4) == 30,
        month_days(y, 5) == 31,
        month_days(y, 6) == 30,
        month_days(y, 7) == 31,
        month_days(y, 8) == 31,
        month_days(y, 9) == 30,
        month_days(y, 10) == 31,
        month_days(y, 11) == 30,
        month_days(y, 12) == 31,
        year_days(y) == (if is_leap_year(y) {
            366int
        } else {
            365int
        }),
        is_leap_year(2000),
        is_leap_year(2024),
        !is_leap_year(1900),
        !is_leap_year(2023),
        days_before_month(y, 13) == year_days(y),
{
    lemma_months_fill_year(y);
}

/// A date `civil_time` gives is a real Gregorian date: the day never passes
/// the month's Gregorian length (30 in April, June, September and November,
/// at most 29 in February, 31 otherwise).
pub proof fn law_civil_dates_are_gregorian(t: CivilTime)
    requires
        1 <= t.month <= 12,
        1 <= t.day <= month_days(t.year as int, t.month as int),
    ensures
        t.month == 4 || t.month == 6 || t.month == 9 || t.month == 11 ==> t.day <= 30,
        t.month == 2 ==> t.day <= 29,
        t.month == 2 && !is_leap_year(t.year as int) ==> t.day <= 28,
        t.day <= 31,
{
    law_gregorian_months(t.year as int);
}

proof fn lemma_months_fill_year(y: int)
    ensures
        days_before_month(y, 13) == year_days(y),
{
    reveal_with_fuel(days_before_month, 13);
}

fn leap(y: u64) -> (r: bool)
    ensures
        r == is_leap_year(y as int),
{
    (y % 4 == 0 && y % 100 != 0) || y % 400 == 0
}

fn days_in_year(y: u64) -> (r: u64)
    ensures
        r == year_days(y as int),
{
    if leap(y) {
        366
    } else {
        365
    }
}

fn days_in_month(y: u64, m: u64) -> (r: u64)
    ensures
        r == month_days(y as int, m as int),
{
    if m == 2 {
        if leap(y) {
            29
        } else {
            28
        }
    } else if m == 4 || m == 6 || m == 9 || m == 11 {
        30
    } else {
        31
    }
}

/// The civil UTC date and time `secs` seconds after 1970-01-01T00:00:00Z:
/// the date is the one that many whole days after the epoch, the time of
/// day the remaining seconds.
pub fn civil_time(secs: u64) -> (r: CivilTime)
    ensures
        r.year >= 1970,
        1 <= r.month <= 12,
        1 <= r.day <= month_days(r.year as int, r.month as int),
        days_before_year(r.year as int) + days_before_month(r.year as int, r.month as int) + r.day
            - 1 == secs / 86400,
        r.hour == (secs % 86400) / 3600,
        r.minute == (secs % 3600) / 60,
        r.second == secs % 60,
        r.month == 4 || r.month == 6 || r.month == 9 || r.month == 11 ==> r.day <= 30,
        r.month == 2 ==> r.day <= 29,
{
    let total: u64 = secs / 86400;
    let mut days: u64 = total;
    let mut year: u64 = 1970;
    while days >= days_in_year(year)
        invariant
            year >= 1970,
            days <= total,
            total <= u64::MAX / 86400,
            year <= 1970 + (total - days),
            days_before_year(year as int) + days == total,
        decreases days,
    {
        days = days - days_in_year(year);
        year = year + 1;
    }
    proof {
        lemma_months_fill_year(year as int);
    }
    let mut month: u64 = 1;
    while days >= days_in_month(year, month)
        invariant
            1 <= month <= 12,
            days_before_month(year as int, month as int) + days < year_days(year as int),
            days_before_month(year as int, 13) == year_days(year as int),
            days_before_year(year as int) + days_before_month(year as int, month as int) + days
                == total,
        decreases 12 - month,
    {
        days = days - days_in_month(year, month);
        month = month + 1;
    }
    proof {
        law_gregorian_months(year as int);
    }
    CivilTime {
        year,
        month,
        day: days + 1,
        hour: (secs % 86400) / 3600,
        minute: (secs % 3600) / 60,
        second: secs % 60,
    }
}

} // verus!

//! Calendar dates of the proleptic Gregorian calendar, and month-stepping.

use chrono::{Datelike, NaiveDate};
use chronoutil::{DateRule, RelativeDuration};
use vstd::prelude::*;

verus! {

/// The earliest year a date may lie in.
pub const MIN_YEAR: i32 = -262143;

/// The latest year a date may lie in.
pub const MAX_YEAR: i32 = 262142;

/// Whether `year` has a 29th of February.
pub open spec fn is_leap_year(year: int) -> bool {
    year % 4 == 0 && (year % 100 != 0 || year % 400 == 0)
}

/// The number of days of `month` (1 to 12) in `year`.
pub open spec fn days_in_month(year: int, month: int) -> int {
    if month == 2 {
        if is_leap_year(year) {
            29
        } else {
            28
        }
    } else if month == 4 || month == 6 || month == 9 || month == 11 {
        30
    } else {
        31
    }
}

/// Whether year, month and day name a day that exists.
pub open spec fn is_calendar_day(year: int, month: int, day: int) -> bool {
    &&& MIN_YEAR <= year <= MAX_YEAR
    &&& 1 <= month <= 12
    &&& 1 <= day <= days_in_month(year, month)
}

/// One past the index of the last month that a date may lie in.
pub open spec fn month_index_end() -> int {
    (MAX_YEAR + 1) * 12
}

/// A day of the calendar, held as year, month (1 to 12) and day of the month.
#[derive(Clone, Copy, Debug, PartialEq, Eq, Structural)]
pub struct CalendarDate {
    pub year: i32,
    pub month: u32,
    pub day: u32,
}

impl CalendarDate {
    /// The date names a day that exists.
    pub open spec fn is_valid(&self) -> bool {
        is_calendar_day(self.year as int, self.month as int, self.day as int)
    }

    /// The number of the date's month, counted from January of year 0.
    pub open spec fn month_index(&self) -> int {
        self.year * 12 + (self.month - 1)
    }

    /// `self` is `start` moved forward by `months` calendar months: the month
    /// advances by that count, and the day of the month is kept, or pulled
    /// back to the last day of the new month where that month is shorter.
    pub open spec fn is_months_after(&self, start: CalendarDate, months: int) -> bool {
        &&& 1 <= self.month <= 12
        &&& self.month_index() == start.month_index() + months
        &&& self.day == if start.day <= days_in_month(self.year as int, self.month as int) {
            start.day as int
        } else {
            days_in_month(self.year as int, self.month as int)
        }
    }

    /// `self` is the same day as `other` or an earlier one.
    pub open spec fn is_on_or_before(&self, other: CalendarDate) -> bool {
        self.year < other.year || (self.year == other.year && (self.month < other.month || (
        self.month == other.month && self.day <= other.day)))
    }

    /// The date of the given year, month and day, if that day exists.
    pub fn new(year: i32, month: u32, day: u32) -> (made: Option<CalendarDate>)
        ensures
            made.is_some() == is_calendar_day(year as int, month as int, day as int),
            made.is_some() ==> made.unwrap() == (CalendarDate { year, month, day }),
    {
        let date = CalendarDate { year, month, day };
        if date.names_a_day() {
            Some(date)
        } else {
            None
        }
    }

    /// Whether the date names a day that exists.
    pub fn names_a_day(&self) -> (valid: bool)
        ensures
            valid == self.is_valid(),
    {
        if self.year < MIN_YEAR || self.year > MAX_YEAR || self.month < 1 || self.month > 12
            || self.day < 1 {
            return false;
        }
        self.day <= month_length(self.year, self.month)
    }
}

/// The number of days of `month` in `year`.
pub fn month_length(year: i32, month: u32) -> (days: u32)
    requires
        MIN_YEAR <= year <= MAX_YEAR,
        1 <= month <= 12,
    ensures
        days == days_in_month(year as int, month as int),
{
    // 262400 is a multiple of 400, so the shift keeps every remainder that
    // the leap-year rule looks at while making the year positive.
    let shifted: i32 = year + 262400;
    let leap = shifted % 4 == 0 && (shifted % 100 != 0 || shifted % 400 == 0);
    if month == 2 {
        if leap {
            29
        } else {
            28
        }
    } else if month == 4 || month == 6 || month == 9 || month == 11 {
        30
    } else {
        31
    }
}

/// `date` moved forward by `months` calendar months.
///
/// Calls chronoutil's addition of a `RelativeDuration` of whole months to a
/// chrono `NaiveDate`. The contract claims what that addition does for a
/// count that is not negative: the month index grows by `months`, the day of
/// the month is kept unless the new month is shorter, in which case it is the
/// new month's last day. The result must lie within the years that chrono can
/// hold, which `requires` asks for. Nothing of this is proved.
#[verifier::external_body]
pub(crate) fn add_months(date: CalendarDate, months: i32) -> (shifted: CalendarDate)
    requires
        date.is_valid(),
        0 <= months,
        date.month_index() + months < month_index_end(),
    ensures
        shifted.is_months_after(date, months as int),
{
    let start = NaiveDate::from_ymd_opt(date.year, date.month, date.day).unwrap();
    let end = start + RelativeDuration::months(months);
    CalendarDate { year: end.year(), month: end.month(), day: end.day() }
}

/// The first `count` dates of the monthly series that starts at `start`.
///
/// Calls chronoutil's `DateRule::monthly` with `with_count` on a chrono
/// `NaiveDate` and collects what the rule yields. The contract claims that
/// the rule yields exactly `count` dates and that the date at position `i` is
/// `start` moved forward by `i` months, each computed from `start` itself.
/// The last of them must lie within the years that chrono can hold, which
/// `requires` asks for. Nothing of this is proved.
#[verifier::external_body]
pub(crate) fn monthly_dates(start: CalendarDate, count: usize) -> (dates: Vec<CalendarDate>)
    requires
        start.is_valid(),
        start.month_index() + count - 1 < month_index_end(),
    ensures
        dates@.len() == count,
        forall|i: int| 0 <= i < count ==> (#[trigger] dates@[i]).is_months_after(start, i),
{
    let first = NaiveDate::from_ymd_opt(start.year, start.month, start.day).unwrap();
    DateRule::monthly(first)
        .with_count(count)
        .map(|d| CalendarDate { year: d.year(), month: d.month(), day: d.day() })
        .collect()
}

/// A date that lies some months after a valid date, within the calendar's
/// last month, is itself valid.
pub proof fn lemma_months_after_is_valid(date: CalendarDate, start: CalendarDate, months: int)
    requires
        start.is_valid(),
        0 <= months,
        start.month_index() + months < month_index_end(),
        date.is_months_after(start, months),
    ensures
        date.is_valid(),
{
}

/// Only one date lies a given number of months after another.
pub proof fn lemma_months_after_is_unique(
    a: CalendarDate,
    b: CalendarDate,
    start: CalendarDate,
    months: int,
)
    requires
        a.is_months_after(start, months),
        b.is_months_after(start, months),
    ensures
        a == b,
{
}

} // verus!

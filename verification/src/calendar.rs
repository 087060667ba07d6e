//! Dates of the proleptic Gregorian calendar, as plain numbers.

use vstd::prelude::*;

verus! {

/// Whether `year` is a leap year.
pub open spec fn is_leap(year: int) -> bool {
    year % 4 == 0 && (year % 100 != 0 || year % 400 == 0)
}

/// The number of days of `month` in `year`, for the months 1 to 12; any
/// other number counts as a month of 31 days.
pub open spec fn month_length(year: int, month: int) -> int {
    if month == 2 {
        if is_leap(year) {
            29
        } else {
            28
        }
    } else if month == 4 || month == 6 || month == 9 || month == 11 {
        30
    } else {
        31
    }
}

/// Whether the three numbers name a day that exists.
pub open spec fn is_calendar_date(year: int, month: int, day: int) -> bool {
    1 <= month <= 12 && 1 <= day <= month_length(year, month)
}

/// A calendar date without time of day or time zone.
#[derive(Clone, Copy, Debug, PartialEq, Eq, Structural)]
pub struct CalendarDate {
    pub year: i32,
    pub month: u8,
    pub day: u8,
}

/// Whether `year` is a leap year.
pub fn leap_year(year: i32) -> (leap: bool)
    ensures
        leap == is_leap(year as int),
{
    year % 4 == 0 && (year % 100 != 0 || year % 400 == 0)
}

/// The number of days of `month` in `year`.
pub fn days_in_month(year: i32, month: u8) -> (days: u8)
    ensures
        days == month_length(year as int, month as int),
{
    if month == 2 {
        if leap_year(year) {
            29
        } else {
            28
        }
    } else if month == 4 || month == 6 || month == 9 || month == 11 {
        30
    } else {
        31
    }
}

impl CalendarDate {
    /// The date as year, month and day.
    pub open spec fn ymd(self) -> (int, int, int) {
        (self.year as int, self.month as int, self.day as int)
    }

    /// The date names a day that exists.
    pub open spec fn wf(self) -> bool {
        is_calendar_date(self.year as int, self.month as int, self.day as int)
    }

    /// The date of the given day, if that day exists.
    pub fn new(year: i32, month: u8, day: u8) -> (date: Option<CalendarDate>)
        ensures
            date is Some <==> is_calendar_date(year as int, month as int, day as int),
            date matches Some(d) ==> d.wf() && d.year == year && d.month == month && d.day == day,
    {
        if 1 <= month && month <= 12 && 1 <= day && day <= days_in_month(year, month) {
            Some(CalendarDate { year, month, day })
        } else {
            None
        }
    }

    /// Whether the date names a day that exists.
    pub fn is_valid(&self) -> (valid: bool)
        ensures
            valid == self.wf(),
    {
        1 <= self.month && self.month <= 12 && 1 <= self.day && self.day <= days_in_month(
            self.year,
            self.month,
        )
    }
}

} // verus!

//! Calendar dates for report cycles.
//!
//! A report is always generated for one calendar day, identified in UTC.
//! The scheduler works on "yesterday", so the one piece of date arithmetic
//! the pipeline needs is the calendar predecessor of a date.

use vstd::prelude::*;

verus! {

/// First year a `ReportDate` can name.
pub const MIN_YEAR: u16 = 1;

/// Last year a `ReportDate` can name.
pub const MAX_YEAR: u16 = 9999;

/// A calendar date (no time component) in the proleptic Gregorian calendar.
#[derive(Clone, Copy, PartialEq, Eq, Structural, Debug)]
pub struct ReportDate {
    pub year: u16,
    pub month: u8,
    pub day: u8,
}

/// Gregorian leap-year rule.
pub open spec fn is_leap_year(y: int) -> bool {
    (y % 4 == 0 && y % 100 != 0) || y % 400 == 0
}

/// Number of days in a month of a given year.
pub open spec fn days_in_month(y: int, m: int) -> int {
    if m == 2 {
        if is_leap_year(y) {
            29
        } else {
            28
        }
    } else if m == 4 || m == 6 || m == 9 || m == 11 {
        30
    } else {
        31
    }
}

/// Executable counterpart of [`days_in_month`].
pub fn days_in_month_of(year: u16, month: u8) -> (r: u8)
    requires
        1 <= month <= 12,
    ensures
        r as int == days_in_month(year as int, month as int),
{
    if month == 2 {
        if (year % 4 == 0 && year % 100 != 0) || year % 400 == 0 {
            29
        } else {
            28
        }
    } else if month == 4 || month == 6 || month == 9 || month == 11 {
        30
    } else {
        31
    }
}

impl ReportDate {
    /// The fields name an actual day of the calendar.
    pub open spec fn valid(self) -> bool {
        &&& MIN_YEAR <= self.year <= MAX_YEAR
        &&& 1 <= self.month <= 12
        &&& 1 <= self.day <= days_in_month(self.year as int, self.month as int)
    }

    /// The earliest supported day, which has no predecessor here.
    pub open spec fn is_min(self) -> bool {
        self.year == MIN_YEAR && self.month == 1 && self.day == 1
    }

    /// The calendar successor of a date.
    pub open spec fn succ(self) -> ReportDate {
        if self.day < days_in_month(self.year as int, self.month as int) {
            ReportDate { year: self.year, month: self.month, day: (self.day + 1) as u8 }
        } else if self.month < 12 {
            ReportDate { year: self.year, month: (self.month + 1) as u8, day: 1 }
        } else {
            ReportDate { year: (self.year + 1) as u16, month: 1, day: 1 }
        }
    }

    /// The calendar predecessor of a date, or `None` at the earliest day.
    pub open spec fn spec_prev(self) -> Option<ReportDate> {
        if self.day > 1 {
            Some(ReportDate { year: self.year, month: self.month, day: (self.day - 1) as u8 })
        } else if self.month > 1 {
            Some(
                ReportDate {
                    year: self.year,
                    month: (self.month - 1) as u8,
                    day: days_in_month(self.year as int, self.month as int - 1) as u8,
                },
            )
        } else if self.year > MIN_YEAR {
            Some(ReportDate { year: (self.year - 1) as u16, month: 12, day: 31 })
        } else {
            None
        }
    }

    /// Executable validity check.
    pub fn check_valid(&self) -> (b: bool)
        ensures
            b == self.valid(),
    {
        if MIN_YEAR <= self.year && self.year <= MAX_YEAR && 1 <= self.month && self.month <= 12 {
            let dim = days_in_month_of(self.year, self.month);
            1 <= self.day && self.day <= dim
        } else {
            false
        }
    }

    /// Build a date from raw numbers; succeeds exactly on numbers that name a
    /// real day in the supported range.
    pub fn from_ymd(year: i64, month: i64, day: i64) -> (r: Option<ReportDate>)
        ensures
            match r {
                Some(d) => {
                    &&& d.valid()
                    &&& d.year as int == year as int
                    &&& d.month as int == month as int
                    &&& d.day as int == day as int
                },
                None => !{
                    &&& MIN_YEAR as int <= year as int <= MAX_YEAR as int
                    &&& 1 <= month as int <= 12
                    &&& 1 <= day as int <= days_in_month(year as int, month as int)
                },
            },
    {
        if MIN_YEAR as i64 <= year && year <= MAX_YEAR as i64 && 1 <= month && month <= 12 {
            let y = year as u16;
            let m = month as u8;
            let dim = days_in_month_of(y, m);
            if 1 <= day && day <= dim as i64 {
                Some(ReportDate { year: y, month: m, day: day as u8 })
            } else {
                None
            }
        } else {
            None
        }
    }

    /// The calendar predecessor: the date a daily cycle reports on, relative
    /// to the day it wakes. `None` only at the earliest supported day; on
    /// success the result is the unique date whose successor is `self`.
    pub fn prev(self) -> (r: Option<ReportDate>)
        requires
            self.valid(),
        ensures
            r == self.spec_prev(),
            match r {
                Some(p) => p.valid() && p.succ() == self && !self.is_min(),
                None => self.is_min(),
            },
    {
        if self.day > 1 {
            Some(ReportDate { year: self.year, month: self.month, day: self.day - 1 })
        } else if self.month > 1 {
            let pm = self.month - 1;
            Some(ReportDate { year: self.year, month: pm, day: days_in_month_of(self.year, pm) })
        } else if self.year > MIN_YEAR {
            Some(ReportDate { year: self.year - 1, month: 12, day: 31 })
        } else {
            None
        }
    }
}

/// The predecessor undoes the successor: every valid date but the earliest
/// has a predecessor, and that predecessor is a valid date whose calendar
/// successor is the original date.
pub proof fn lemma_prev_undoes_succ(d: ReportDate)
    requires
        d.valid(),
        !d.is_min(),
    ensures
        d.spec_prev() matches Some(p) && p.valid() && p.succ() == d,
{
}

} // verus!

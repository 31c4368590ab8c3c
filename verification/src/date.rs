//! Calendar dates and their validation.
//!
//! A recognized date token is only kept when it names a real calendar
//! day; a token with an out-of-range month or day is dropped.

use vstd::prelude::*;

verus! {

/// A Gregorian calendar date, understood as midnight UTC of that day.
#[derive(Clone, Copy, PartialEq, Eq, Structural, Debug)]
pub struct Date {
    pub year: u16,
    pub month: u8,
    pub day: u8,
}

/// The mathematical value of a `Date`.
pub ghost struct DateView {
    pub year: int,
    pub month: int,
    pub day: int,
}

impl View for Date {
    type V = DateView;

    open spec fn view(&self) -> DateView {
        DateView { year: self.year as int, month: self.month as int, day: self.day as int }
    }
}

/// A Gregorian leap year: divisible by four, except century years not
/// divisible by four hundred.
pub open spec fn is_leap_year(y: int) -> bool {
    y % 4 == 0 && (y % 100 != 0 || y % 400 == 0)
}

/// How many days the month `m` of year `y` has.
pub open spec fn days_in_month(y: int, m: int) -> int {
    if m == 2 {
        if is_leap_year(y) {
            29
        } else {
            28
        }
    } else if m == 4 || m == 6 || m == 9 || m == 11 {
        30
    } else {
        31
    }
}

/// A real calendar day with a four-digit year.
pub open spec fn valid_date(y: int, m: int, d: int) -> bool {
    0 <= y <= 9999 && 1 <= m <= 12 && 1 <= d <= days_in_month(y, m)
}

impl Date {
    /// The date names a real calendar day.
    pub open spec fn wf(self) -> bool {
        valid_date(self@.year, self@.month, self@.day)
    }

    /// Validates the numeric parts of a date token against the
    /// calendar; yields the date exactly when they name a real day.
    pub fn checked(year: u32, month: u32, day: u32) -> (r: Option<Date>)
        ensures
            r is Some <==> valid_date(year as int, month as int, day as int),
            r matches Some(d) ==> d@ == (DateView {
                year: year as int,
                month: month as int,
                day: day as int,
            }),
    {
        if year > 9999 || month < 1 || month > 12 || day < 1 {
            return None;
        }
        let leap: bool = year % 4 == 0 && (year % 100 != 0 || year % 400 == 0);
        let limit: u32 = if month == 2 {
            if leap {
                29
            } else {
                28
            }
        } else if month == 4 || month == 6 || month == 9 || month == 11 {
            30
        } else {
            31
        };
        if day > limit {
            None
        } else {
            Some(Date { year: year as u16, month: month as u8, day: day as u8 })
        }
    }
}

} // verus!

use chrono::Datelike;
use vstd::prelude::*;

verus! {

/// A calendar date as a plain triple: a year, a month in `1..=12` and a day
/// of that month.
#[derive(Clone, Copy, Debug, PartialEq, Eq)]
pub struct CalendarDate {
    pub year: i32,
    pub month: u32,
    pub day: u32,
}

/// Gregorian leap years.
pub open spec fn is_leap_year(year: int) -> bool {
    (year % 4 == 0 && year % 100 != 0) || year % 400 == 0
}

/// The number of days of `month` (in `1..=12`) in `year`.
pub open spec fn days_in_month(year: int, month: int) -> int {
    if month == 2 {
        if is_leap_year(year) { 29 } else { 28 }
    } else if month == 4 || month == 6 || month == 9 || month == 11 {
        30
    } else {
        31
    }
}

fn month_length(year: i32, month: u32) -> (r: u32)
    requires
        1 <= month <= 12,
    ensures
        r == days_in_month(year as int, month as int),
{
    if month == 2 {
        if (year % 4 == 0 && year % 100 != 0) || year % 400 == 0 {
            29
        } else {
            28
        }
    } else if month == 4 || month == 6 || month == 9 || month == 11 {
        30
    } else {
        31
    }
}

impl CalendarDate {
    /// The triple names a day that exists.
    pub open spec fn wf(&self) -> bool {
        &&& 1 <= self.month <= 12
        &&& 1 <= self.day <= days_in_month(self.year as int, self.month as int)
    }

    /// The date `year-month-day`, or `None` where no such day exists.
    pub fn new(year: i32, month: u32, day: u32) -> (r: Option<CalendarDate>)
        ensures
            r is Some <==> (CalendarDate { year, month, day }).wf(),
            r is Some ==> r->0 == (CalendarDate { year, month, day }),
    {
        if month < 1 || month > 12 {
            return None;
        }
        if day < 1 || day > month_length(year, month) {
            return None;
        }
        Some(CalendarDate { year, month, day })
    }

    /// The current date in the host's local time zone.
    ///
    /// Relies on chrono's `Local::now` for the moment and on its `Datelike`
    /// accessors, whose month lies in `1..=12` and whose day lies in `1..=31`.
    #[verifier::external_body]
    pub(crate) fn local_today() -> (r: CalendarDate)
        ensures
            1 <= r.month <= 12,
            1 <= r.day <= 31,
    {
        let now = chrono::Local::now();
        CalendarDate { year: now.year(), month: now.month(), day: now.day() }
    }
}

} // verus!

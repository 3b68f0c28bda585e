//! A UTC date and time as calendar fields, in the proleptic Gregorian calendar.

use vstd::prelude::*;

verus! {

/// The earliest year that a date can carry.
pub const MIN_YEAR: i32 = -262143;

/// The latest year that a date can carry.
pub const MAX_YEAR: i32 = 262142;

/// Nanoseconds in one second.
pub const NANOS_PER_SECOND: u32 = 1_000_000_000;

/// Nanoseconds in one millisecond.
pub const NANOS_PER_MILLI: u32 = 1_000_000;

/// Whether `year` has a 29th of February.
pub open spec fn is_leap_year(year: int) -> bool {
    year % 4 == 0 && (year % 100 != 0 || year % 400 == 0)
}

/// The number of days of `month` (1 to 12) in `year`; 0 for any other month.
pub open spec fn days_in_month(year: int, month: int) -> int {
    if month == 2 {
        if is_leap_year(year) {
            29
        } else {
            28
        }
    } else if month == 4 || month == 6 || month == 9 || month == 11 {
        30
    } else if 1 <= month <= 12 {
        31
    } else {
        0
    }
}

/// Whether the seven fields name a moment: a day that the calendar has, a time
/// of that day, and a year within `MIN_YEAR` and `MAX_YEAR`. Leap seconds are
/// not represented.
pub open spec fn fields_valid(
    year: int,
    month: int,
    day: int,
    hour: int,
    minute: int,
    second: int,
    nanosecond: int,
) -> bool {
    &&& MIN_YEAR <= year <= MAX_YEAR
    &&& 1 <= month <= 12
    &&& 1 <= day <= days_in_month(year, month)
    &&& 0 <= hour < 24
    &&& 0 <= minute < 60
    &&& 0 <= second < 60
    &&& 0 <= nanosecond < NANOS_PER_SECOND
}

/// A moment in UTC, broken into calendar fields.
#[derive(Clone, Copy, Debug, PartialEq, Eq, Structural)]
pub struct UtcDateTime {
    pub year: i32,
    pub month: u32,
    pub day: u32,
    pub hour: u32,
    pub minute: u32,
    pub second: u32,
    pub nanosecond: u32,
}

/// Computes `is_leap_year`.
pub fn leap_year(year: i32) -> (r: bool)
    ensures
        r == is_leap_year(year as int),
{
    year % 4 == 0 && (year % 100 != 0 || year % 400 == 0)
}

/// Computes `days_in_month`.
pub fn month_length(year: i32, month: u32) -> (r: u32)
    ensures
        r as int == days_in_month(year as int, month as int),
{
    if month == 2 {
        if leap_year(year) {
            29
        } else {
            28
        }
    } else if month == 4 || month == 6 || month == 9 || month == 11 {
        30
    } else if 1 <= month && month <= 12 {
        31
    } else {
        0
    }
}

impl UtcDateTime {
    /// The value names a moment: see `fields_valid`.
    pub open spec fn wf(&self) -> bool {
        fields_valid(
            self.year as int,
            self.month as int,
            self.day as int,
            self.hour as int,
            self.minute as int,
            self.second as int,
            self.nanosecond as int,
        )
    }

    /// The whole milliseconds of the sub-second part.
    pub open spec fn millisecond(&self) -> int {
        self.nanosecond as int / (NANOS_PER_MILLI as int)
    }

    /// The same moment with what lies below the millisecond cut off.
    pub open spec fn floor_millis(&self) -> UtcDateTime {
        UtcDateTime {
            nanosecond: ((self.nanosecond / NANOS_PER_MILLI) * NANOS_PER_MILLI) as u32,
            ..*self
        }
    }

    /// The moment with these fields, or `None` where they name none.
    pub fn new(
        year: i32,
        month: u32,
        day: u32,
        hour: u32,
        minute: u32,
        second: u32,
        nanosecond: u32,
    ) -> (r: Option<UtcDateTime>)
        ensures
            r == (if fields_valid(
                year as int,
                month as int,
                day as int,
                hour as int,
                minute as int,
                second as int,
                nanosecond as int,
            ) {
                Some(UtcDateTime { year, month, day, hour, minute, second, nanosecond })
            } else {
                None
            }),
    {
        let t = UtcDateTime { year, month, day, hour, minute, second, nanosecond };
        if t.is_valid() {
            Some(t)
        } else {
            None
        }
    }

    /// Computes `wf`.
    pub fn is_valid(&self) -> (r: bool)
        ensures
            r == self.wf(),
    {
        MIN_YEAR <= self.year && self.year <= MAX_YEAR && 1 <= self.month && self.month <= 12
            && 1 <= self.day && self.day <= month_length(self.year, self.month) && self.hour < 24
            && self.minute < 60 && self.second < 60 && self.nanosecond < NANOS_PER_SECOND
    }

    /// Cuts off what lies below the millisecond.
    pub fn truncated_to_millis(&self) -> (r: UtcDateTime)
        ensures
            r == self.floor_millis(),
            self.wf() ==> r.wf(),
            r.millisecond() == self.millisecond(),
            r.floor_millis() == r,
    {
        let ms: u32 = self.nanosecond / NANOS_PER_MILLI;
        UtcDateTime {
            year: self.year,
            month: self.month,
            day: self.day,
            hour: self.hour,
            minute: self.minute,
            second: self.second,
            nanosecond: ms * NANOS_PER_MILLI,
        }
    }
}

} // verus!

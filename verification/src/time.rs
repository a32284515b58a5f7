//! Calendar time at minute granularity in the deployment's reference
//! timezone, together with the date arithmetic the key scheme needs.

use vstd::prelude::*;
use chrono::{Datelike, Timelike};

verus! {

/// A wall-clock reading held as plain field values. Cache keys are derived
/// from the hour; the minute only records where within the hour the reading
/// lies, so that two readings in the same clock hour derive the same key.
#[derive(Clone, Copy, Debug, PartialEq, Eq, Structural)]
pub struct LogicalTime {
    pub year: u32,
    pub month: u32,
    pub day: u32,
    pub hour: u32,
    pub minute: u32,
}

pub open spec fn spec_is_leap_year(year: int) -> bool {
    (year % 4 == 0 && year % 100 != 0) || year % 400 == 0
}

pub open spec fn spec_days_in_month(year: int, month: int) -> int {
    if month == 2 {
        if spec_is_leap_year(year) {
            29
        } else {
            28
        }
    } else if month == 4 || month == 6 || month == 9 || month == 11 {
        30
    } else {
        31
    }
}

impl LogicalTime {
    /// A valid Gregorian date with a four-digit year, plus a valid hour and
    /// minute.
    pub open spec fn wf(self) -> bool {
        &&& 1 <= self.year <= 9999
        &&& 1 <= self.month <= 12
        &&& 1 <= self.day <= spec_days_in_month(self.year as int, self.month as int)
        &&& self.hour < 24
        &&& self.minute < 60
    }

    /// Both readings lie within the same clock hour of the same day.
    pub open spec fn same_hour(self, other: Self) -> bool {
        &&& self.year == other.year
        &&& self.month == other.month
        &&& self.day == other.day
        &&& self.hour == other.hour
    }

    /// The earliest time the date arithmetic can represent; going one day
    /// back from it would leave the supported range.
    pub open spec fn is_first_day(self) -> bool {
        self.year == 1 && self.month == 1 && self.day == 1
    }
}

pub fn is_leap_year(year: u32) -> (r: bool)
    ensures
        r == spec_is_leap_year(year as int),
{
    (year % 4 == 0 && year % 100 != 0) || year % 400 == 0
}

pub fn days_in_month(year: u32, month: u32) -> (r: u32)
    ensures
        r as int == spec_days_in_month(year as int, month as int),
{
    if month == 2 {
        if is_leap_year(year) {
            29
        } else {
            28
        }
    } else if month == 4 || month == 6 || month == 9 || month == 11 {
        30
    } else {
        31
    }
}

/// The same calendar day one day earlier, hour and minute kept.
pub open spec fn spec_previous_day(t: LogicalTime) -> LogicalTime {
    if t.day > 1 {
        LogicalTime { day: (t.day - 1) as u32, ..t }
    } else if t.month > 1 {
        LogicalTime {
            month: (t.month - 1) as u32,
            day: spec_days_in_month(t.year as int, t.month - 1) as u32,
            ..t
        }
    } else {
        LogicalTime { year: (t.year - 1) as u32, month: 12, day: 31, ..t }
    }
}

/// Steps one day back: the previous day of the month, or the last day of
/// the previous month, or December 31st of the previous year.
pub fn previous_day(t: &LogicalTime) -> (r: LogicalTime)
    requires
        t.wf(),
        !t.is_first_day(),
    ensures
        r == spec_previous_day(*t),
        r.wf(),
        r.hour == t.hour,
        r.minute == t.minute,
{
    if t.day > 1 {
        LogicalTime { day: t.day - 1, ..*t }
    } else if t.month > 1 {
        LogicalTime { month: t.month - 1, day: days_in_month(t.year, t.month - 1), ..*t }
    } else {
        LogicalTime { year: t.year - 1, month: 12, day: 31, ..*t }
    }
}

/// The fields reported by the clock describe a valid calendar date with a
/// four-digit year, and a valid hour and minute.
pub open spec fn spec_clock_fields_valid(
    year: i32,
    month: u32,
    day: u32,
    hour: u32,
    minute: u32,
) -> bool {
    &&& 1 <= year <= 9999
    &&& 1 <= month <= 12
    &&& 1 <= day
    &&& day as int <= spec_days_in_month(year as int, month as int)
    &&& hour < 24
    &&& minute < 60
}

/// Relies on chrono's `Local::now` and its `Datelike`/`Timelike` accessors:
/// `month` ranges over 1..=12, `day` over 1..=31 and, since the reading is
/// a real calendar date, never past the reported month's length; `hour`
/// ranges over 0..=23 and `minute` over 0..=59. Nothing is promised of the
/// year, which chrono leaves unconstrained, nor of which instant is
/// reported. `Local::now` itself can abort in pathological environments —
/// a system clock before the Unix epoch, a failed local-offset lookup —
/// which no argument of this wrapper can exclude.
#[verifier::external_body]
fn clock_now_fields() -> (r: (i32, u32, u32, u32, u32))
    ensures
        1 <= r.1 <= 12,
        1 <= r.2 <= 31,
        r.2 as int <= spec_days_in_month(r.0 as int, r.1 as int),
        r.3 < 24,
        r.4 < 60,
{
    let now = chrono::Local::now();
    (now.year(), now.month(), now.day(), now.hour(), now.minute())
}

/// Validates raw clock fields into a well-formed `LogicalTime`: exactly
/// the readings that name a valid calendar date with a four-digit year and
/// a valid hour and minute are accepted, unchanged; every other reading is
/// refused.
pub fn clock_fields_to_time(year: i32, month: u32, day: u32, hour: u32, minute: u32) -> (r: Option<
    LogicalTime,
>)
    ensures
        spec_clock_fields_valid(year, month, day, hour, minute) ==> r == Some(
            LogicalTime { year: year as u32, month, day, hour, minute },
        ),
        !spec_clock_fields_valid(year, month, day, hour, minute) ==> r is None,
        r matches Some(t) ==> t.wf(),
{
    if year >= 1 && year <= 9999 && month >= 1 && month <= 12 && hour < 24 && minute < 60 {
        let y = year as u32;
        if day >= 1 && day <= days_in_month(y, month) {
            return Some(LogicalTime { year: y, month, day, hour, minute });
        }
    }
    None
}

/// Reads the wall clock in the reference timezone and validates the
/// reading through `clock_fields_to_time`. `None` only when the clock
/// reports a year outside 1..=9999 — a reading a sane clock never
/// produces.
pub fn local_now() -> (r: Option<LogicalTime>)
    ensures
        r matches Some(t) ==> t.wf(),
{
    let (year, month, day, hour, minute) = clock_now_fields();
    clock_fields_to_time(year, month, day, hour, minute)
}

} // verus!

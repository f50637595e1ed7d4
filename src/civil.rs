//! Zone-free calendar values: the plain data that the pipeline reads.

use chrono::{Datelike, NaiveDate};
use vstd::prelude::*;

verus! {

/// Earliest year a calendar date may carry.
pub const MIN_YEAR: i32 = -262143;

/// Latest year a calendar date may carry.
pub const MAX_YEAR: i32 = 262142;

/// Day number of the earliest supported date, 1 January of [`MIN_YEAR`].
pub const MIN_DAY: i32 = -95746129;

/// Day number of the latest supported date, 31 December of [`MAX_YEAR`].
pub const MAX_DAY: i32 = 95745399;

/// Day number of 1970-01-01.
pub const UNIX_EPOCH_DAY: i32 = 719163;

/// Earliest instant with a calendar date: the first second of [`MIN_DAY`], in UTC.
pub const MIN_TIMESTAMP: i64 = -8334601228800;

/// Latest instant with a calendar date: the last second of [`MAX_DAY`], in UTC.
pub const MAX_TIMESTAMP: i64 = 8210266876799;

/// Seconds in one civil day.
pub const SECONDS_PER_DAY: u32 = 86400;

/// A date of the proleptic Gregorian calendar, with no time of day, as its day number:
/// 1 January of the year 1 is day 1.
#[derive(Clone, Copy, Debug, PartialEq, Eq, Structural)]
pub struct CivilDate {
    pub days: i32,
}

/// A time of day: whole seconds since midnight and a fraction in nanoseconds.
///
/// A nanosecond count of one billion or more marks a leap second; it is only
/// allowed in the last second of a minute.
#[derive(Clone, Copy, Debug, PartialEq, Eq, Structural)]
pub struct CivilTime {
    pub secs: u32,
    pub nano: u32,
}

/// A wall-clock reading: a date and a time of day, in no particular zone.
#[derive(Clone, Copy, Debug, PartialEq, Eq, Structural)]
pub struct CivilDateTime {
    pub date: CivilDate,
    pub time: CivilTime,
}

/// An instant: seconds since 1970-01-01T00:00:00Z and a fraction in nanoseconds.
#[derive(Clone, Copy, Debug, PartialEq, Eq, Structural)]
pub struct Timestamp {
    pub seconds: i64,
    pub nanos: u32,
}

/// What the natural-language reader makes of an expression.
#[derive(Clone, Copy, Debug, PartialEq, Eq, Structural)]
pub enum Parsed {
    /// A calendar date with no time of day.
    Date(CivilDate),
    /// A full wall-clock reading.
    DateTime(CivilDateTime),
    /// A time of day with no date.
    Time(CivilTime),
}

pub open spec fn is_leap_year(year: int) -> bool {
    year % 4 == 0 && (year % 100 != 0 || year % 400 == 0)
}

pub open spec fn days_in_month(year: int, month: int) -> int {
    if month == 2 {
        if is_leap_year(year) { 29 } else { 28 }
    } else if month == 4 || month == 6 || month == 9 || month == 11 {
        30
    } else {
        31
    }
}

/// The date `year-month-day` exists and lies in the supported range of years.
pub open spec fn valid_ymd(year: int, month: int, day: int) -> bool {
    &&& MIN_YEAR <= year <= MAX_YEAR
    &&& 1 <= month <= 12
    &&& 1 <= day <= days_in_month(year, month)
}

/// Days in the years before `year`, counted from the year 1.
pub open spec fn days_before_year(year: int) -> int {
    let y = year - 1;
    365 * y + y / 4 - y / 100 + y / 400
}

/// Days in the months of `year` before `month`.
pub open spec fn days_before_month(year: int, month: int) -> int
    decreases month,
{
    if month <= 1 {
        0
    } else {
        days_before_month(year, month - 1) + days_in_month(year, month - 1)
    }
}

/// The day number of `year-month-day`.
pub open spec fn day_number(year: int, month: int, day: int) -> int {
    days_before_year(year) + days_before_month(year, month) + day
}

/// Relies on `NaiveDate::from_ymd_opt`, which accepts exactly the existing dates of the
/// supported years, and `Datelike::num_days_from_ce`, which counts 1 January of the year 1 as
/// day 1.
#[verifier::external_body]
fn ymd_day_number(year: i32, month: u32, day: u32) -> (r: Option<i32>)
    ensures
        r is Some <==> valid_ymd(year as int, month as int, day as int),
        r matches Some(n) ==> n == day_number(year as int, month as int, day as int),
{
    match NaiveDate::from_ymd_opt(year, month, day) {
        Some(d) => Some(d.num_days_from_ce()),
        None => None,
    }
}

impl CivilDate {
    /// The date lies in the supported range.
    pub open spec fn wf(self) -> bool {
        MIN_DAY <= self.days <= MAX_DAY
    }

    /// The date `year-month-day`, or `None` when no such date exists in the supported years.
    pub fn from_ymd(year: i32, month: u32, day: u32) -> (r: Option<CivilDate>)
        ensures
            r is Some <==> valid_ymd(year as int, month as int, day as int),
            r matches Some(d) ==> d.days == day_number(year as int, month as int, day as int),
    {
        match ymd_day_number(year, month, day) {
            Some(days) => Some(CivilDate { days }),
            None => None,
        }
    }
}

impl CivilTime {
    /// The reading lies within one day, with a leap second only at the end of a minute.
    pub open spec fn wf(self) -> bool {
        &&& self.secs < SECONDS_PER_DAY
        &&& self.nano < 2_000_000_000
        &&& self.nano >= 1_000_000_000 ==> self.secs % 60 == 59
    }

    pub open spec fn hour(self) -> int {
        self.secs as int / 3600
    }

    pub open spec fn minute(self) -> int {
        (self.secs as int % 3600) / 60
    }

    pub open spec fn second(self) -> int {
        self.secs as int % 60
    }

    /// The first instant of a day.
    pub fn midnight() -> (t: CivilTime)
        ensures
            t.secs == 0,
            t.nano == 0,
            t.wf(),
    {
        CivilTime { secs: 0, nano: 0 }
    }

    /// The time of day `hour:minute:second`, or `None` when a part is out of range.
    pub fn from_hms(hour: u32, minute: u32, second: u32) -> (r: Option<CivilTime>)
        ensures
            r is Some <==> (hour < 24 && minute < 60 && second < 60),
            r is Some ==> {
                let t = r->0;
                &&& t.wf()
                &&& t.nano == 0
                &&& t.hour() == hour
                &&& t.minute() == minute
                &&& t.second() == second
            },
    {
        if hour < 24 && minute < 60 && second < 60 {
            let secs: u32 = hour * 3600 + minute * 60 + second;
            assert(secs / 3600 == hour && (secs % 3600) / 60 == minute && secs % 60 == second)
                by (nonlinear_arith)
                requires
                    secs == hour * 3600 + minute * 60 + second,
                    minute < 60,
                    second < 60,
            ;
            Some(CivilTime { secs, nano: 0 })
        } else {
            None
        }
    }
}

impl CivilDateTime {
    pub open spec fn wf(self) -> bool {
        self.date.wf() && self.time.wf()
    }

    /// Whether the reading is well-formed.
    pub fn is_valid(&self) -> (r: bool)
        ensures
            r == self.wf(),
    {
        let t = &self.time;
        let time_ok = t.secs < SECONDS_PER_DAY && t.nano < 2_000_000_000 && (t.nano < 1_000_000_000
            || t.secs % 60 == 59);
        MIN_DAY <= self.date.days && self.date.days <= MAX_DAY && time_ok
    }
}

impl Timestamp {
    /// The instant lies in the calendar at least a day from either end, so that it has a
    /// wall-clock reading in every zone, and carries no leap second.
    pub open spec fn wf(self) -> bool {
        &&& MIN_TIMESTAMP + 86400 <= self.seconds <= MAX_TIMESTAMP - 86400
        &&& self.nanos < 1_000_000_000
    }

    /// The day number of the instant's date in UTC.
    pub open spec fn utc_day(self) -> int {
        self.seconds as int / 86400 + UNIX_EPOCH_DAY
    }
}

impl Parsed {
    pub open spec fn wf(self) -> bool {
        match self {
            Parsed::Date(d) => d.wf(),
            Parsed::DateTime(dt) => dt.wf(),
            Parsed::Time(t) => t.wf(),
        }
    }
}

} // verus!

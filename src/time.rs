//! Calendar instants and their encoding as Unix seconds.

use vstd::prelude::*;

verus! {

/// The earliest year that a calendar date may have.
pub const MIN_YEAR: i32 = -262143;

/// The latest year that a calendar date may have.
pub const MAX_YEAR: i32 = 262142;

/// A date and time of day in the proleptic Gregorian calendar, with no time zone.
pub struct Instant {
    pub year: int,
    pub month: int,
    pub day: int,
    pub hour: int,
    pub minute: int,
    pub second: int,
    pub nanosecond: int,
}

/// The instant with the given parts.
pub open spec fn instant_of(
    year: i32,
    month: u32,
    day: u32,
    hour: u32,
    minute: u32,
    second: u32,
    nanosecond: u32,
) -> Instant {
    Instant {
        year: year as int,
        month: month as int,
        day: day as int,
        hour: hour as int,
        minute: minute as int,
        second: second as int,
        nanosecond: nanosecond as int,
    }
}

pub open spec fn is_leap_year(y: int) -> bool {
    y % 4 == 0 && (y % 100 != 0 || y % 400 == 0)
}

pub open spec fn days_in_month(y: int, m: int) -> int {
    if m == 2 {
        if is_leap_year(y) {
            29
        } else {
            28
        }
    } else if m == 4 || m == 6 || m == 9 || m == 11 {
        30
    } else {
        31
    }
}

/// Whether `t` names an existing instant: a real calendar day in the
/// supported years, a time of day, and a nanosecond count that may reach
/// into a second second only at second 59 (a leap second).
pub open spec fn is_valid_instant(t: Instant) -> bool {
    &&& MIN_YEAR <= t.year <= MAX_YEAR
    &&& 1 <= t.month <= 12
    &&& 1 <= t.day <= days_in_month(t.year, t.month)
    &&& 0 <= t.hour < 24
    &&& 0 <= t.minute < 60
    &&& 0 <= t.second < 60
    &&& 0 <= t.nanosecond < 2_000_000_000
    &&& t.nanosecond >= 1_000_000_000 ==> t.second == 59
}

/// Days of the year before the first day of month `m`.
pub open spec fn days_before_month(y: int, m: int) -> int {
    let common: int = if m == 1 {
        0
    } else if m == 2 {
        31
    } else if m == 3 {
        59
    } else if m == 4 {
        90
    } else if m == 5 {
        120
    } else if m == 6 {
        151
    } else if m == 7 {
        181
    } else if m == 8 {
        212
    } else if m == 9 {
        243
    } else if m == 10 {
        273
    } else if m == 11 {
        304
    } else {
        334
    };
    if m > 2 && is_leap_year(y) {
        common + 1
    } else {
        common
    }
}

/// The day count of a date, January 1 of year 1 being day 1.
pub open spec fn day_number(y: int, m: int, d: int) -> int {
    let p = y - 1;
    365 * p + p / 4 - p / 100 + p / 400 + days_before_month(y, m) + d
}

/// The day number of January 1, 1970.
pub open spec fn epoch_day_number() -> int {
    719163
}

/// Whole non-leap seconds from midnight of January 1, 1970 to `t`; the
/// fraction of a second is dropped.
pub open spec fn unix_seconds(t: Instant) -> int {
    (day_number(t.year, t.month, t.day) - epoch_day_number()) * 86400 + t.hour * 3600 + t.minute
        * 60 + t.second
}

/// Relies on chrono's `NaiveDate::from_ymd_opt`, `NaiveDate::and_hms_nano_opt`
/// and `DateTime::timestamp`: both constructors accept every valid instant,
/// and the timestamp is the whole non-leap seconds since 1970-01-01 00:00:00
/// (`(num_days_from_ce - 719163) * 86400 + num_seconds_from_midnight`).
#[verifier::external_body]
fn chrono_timestamp(
    year: i32,
    month: u32,
    day: u32,
    hour: u32,
    minute: u32,
    second: u32,
    nanosecond: u32,
) -> (r: i64)
    requires
        is_valid_instant(instant_of(year, month, day, hour, minute, second, nanosecond)),
    ensures
        r == unix_seconds(instant_of(year, month, day, hour, minute, second, nanosecond)),
{
    let date = chrono::NaiveDate::from_ymd_opt(year, month, day).unwrap();
    date.and_hms_nano_opt(hour, minute, second, nanosecond).unwrap().and_utc().timestamp()
}

/// A valid calendar date and time of day, with no time zone.
#[derive(Debug, Clone, Copy)]
pub struct CalendarTime {
    year: i32,
    month: u32,
    day: u32,
    hour: u32,
    minute: u32,
    second: u32,
    nanosecond: u32,
}

impl View for CalendarTime {
    type V = Instant;

    closed spec fn view(&self) -> Instant {
        Instant {
            year: self.year as int,
            month: self.month as int,
            day: self.day as int,
            hour: self.hour as int,
            minute: self.minute as int,
            second: self.second as int,
            nanosecond: self.nanosecond as int,
        }
    }
}

fn leap_year(year: i32) -> (r: bool)
    requires
        MIN_YEAR <= year,
    ensures
        r == is_leap_year(year as int),
{
    // Shifted by whole 400-year cycles so that the remainders are taken of a
    // non-negative number.
    let y: i64 = year as i64 + 400000;
    assert(y % 4 == (year as int) % 4);
    assert(y % 100 == (year as int) % 100);
    assert(y % 400 == (year as int) % 400);
    y % 4 == 0 && (y % 100 != 0 || y % 400 == 0)
}

fn month_length(year: i32, month: u32) -> (r: u32)
    requires
        MIN_YEAR <= year,
        1 <= month <= 12,
    ensures
        r as int == days_in_month(year as int, month as int),
{
    if month == 2 {
        if leap_year(year) {
            29
        } else {
            28
        }
    } else if month == 4 || month == 6 || month == 9 || month == 11 {
        30
    } else {
        31
    }
}

impl CalendarTime {
    #[verifier::type_invariant]
    spec fn inv(self) -> bool {
        is_valid_instant(self@)
    }

    /// The instant with the given parts, or `None` where they name no
    /// existing instant.
    pub fn new(
        year: i32,
        month: u32,
        day: u32,
        hour: u32,
        minute: u32,
        second: u32,
        nanosecond: u32,
    ) -> (r: Option<CalendarTime>)
        ensures
            r is Some <==> is_valid_instant(instant_of(year, month, day, hour, minute, second, nanosecond)),
            r matches Some(t) ==> t@ == instant_of(year, month, day, hour, minute, second, nanosecond),
    {
        if year < MIN_YEAR || year > MAX_YEAR || month < 1 || month > 12 {
            return None;
        }
        if day < 1 || day > month_length(year, month) {
            return None;
        }
        if hour >= 24 || minute >= 60 || second >= 60 || nanosecond >= 2_000_000_000 {
            return None;
        }
        if nanosecond >= 1_000_000_000 && second != 59 {
            return None;
        }
        Some(CalendarTime { year, month, day, hour, minute, second, nanosecond })
    }
}

/// The timestamp of an attachment, sent as whole Unix seconds.
#[derive(Debug, Clone, Copy)]
pub struct SlackTime {
    time: CalendarTime,
}

impl View for SlackTime {
    type V = Instant;

    closed spec fn view(&self) -> Instant {
        self.time@
    }
}

impl SlackTime {
    /// A timestamp at `time`.
    pub fn new(time: &CalendarTime) -> (r: SlackTime)
        ensures
            r@ == time@,
    {
        SlackTime { time: *time }
    }

    /// Whole seconds from the Unix epoch to the instant, the fraction of a
    /// second dropped.
    pub fn encode(&self) -> (r: i64)
        ensures
            r == unix_seconds(self@),
    {
        let t = self.time;
        proof {
            use_type_invariant(&t);
        }
        chrono_timestamp(t.year, t.month, t.day, t.hour, t.minute, t.second, t.nanosecond)
    }
}

} // verus!

//! Wall-clock values: the time of day, and the calendar stamp that an upload
//! carries, with its two textual forms.

use vstd::prelude::*;

verus! {

/// Nanoseconds in one second.
pub const NANOS_PER_SECOND: u64 = 1_000_000_000;

/// Nanoseconds in one calendar day.
pub const NANOS_PER_DAY: u64 = 86_400_000_000_000;

/// A time span of whole seconds and nanoseconds in nanoseconds, or `None`
/// where it exceeds the clock.
pub fn duration_nanos(secs: u64, subsec_nanos: u32) -> (nanos: Option<u64>)
    ensures
        nanos is Some <==> secs * NANOS_PER_SECOND + subsec_nanos <= u64::MAX,
        nanos matches Some(n) ==> n == secs * NANOS_PER_SECOND + subsec_nanos,
{
    match secs.checked_mul(NANOS_PER_SECOND) {
        Some(whole) => whole.checked_add(subsec_nanos as u64),
        None => None,
    }
}

/// Whether `year` is a leap year of the proleptic Gregorian calendar.
pub open spec fn is_leap_year(year: int) -> bool {
    year % 4 == 0 && (year % 100 != 0 || year % 400 == 0)
}

/// The number of days of `month` (1 to 12) in `year`.
pub open spec fn days_in_month(year: int, month: int) -> int {
    if month == 2 {
        if is_leap_year(year) {
            29
        } else {
            28
        }
    } else if month == 4 || month == 6 || month == 9 || month == 11 {
        30
    } else {
        31
    }
}

/// Whether year, month and day name a day of the Gregorian calendar whose
/// year is written with four digits.
pub open spec fn is_calendar_day(year: int, month: int, day: int) -> bool {
    &&& 0 <= year <= 9999
    &&& 1 <= month <= 12
    &&& 1 <= day <= days_in_month(year, month)
}

/// The character that writes the decimal digit `d`.
pub open spec fn digit_char(d: int) -> char {
    if d == 0 {
        '0'
    } else if d == 1 {
        '1'
    } else if d == 2 {
        '2'
    } else if d == 3 {
        '3'
    } else if d == 4 {
        '4'
    } else if d == 5 {
        '5'
    } else if d == 6 {
        '6'
    } else if d == 7 {
        '7'
    } else if d == 8 {
        '8'
    } else {
        '9'
    }
}

/// `n` below 100 as two digits, zero-padded.
pub open spec fn two_digits(n: int) -> Seq<char> {
    seq![digit_char(n / 10), digit_char(n % 10)]
}

/// `n` below 10000 as four digits, zero-padded.
pub open spec fn four_digits(n: int) -> Seq<char> {
    seq![
        digit_char(n / 1000),
        digit_char((n / 100) % 10),
        digit_char((n / 10) % 10),
        digit_char(n % 10),
    ]
}

/// A calendar day as `YYYYMMDD`.
pub open spec fn date_text(year: int, month: int, day: int) -> Seq<char> {
    four_digits(year) + two_digits(month) + two_digits(day)
}

/// A minute of the day as `HH:MM`.
pub open spec fn time_text(hour: int, minute: int) -> Seq<char> {
    two_digits(hour) + seq![':'] + two_digits(minute)
}

/// Formats a calendar day through chrono: `NaiveDate::from_ymd_opt` builds the
/// date and `NaiveDate::format` writes it with the pattern `%Y%m%d`. For a day
/// that exists and a year from 0 to 9999 chrono writes the year zero-padded to
/// four digits, then month and day zero-padded to two digits each.
#[verifier::external_body]
fn format_date(year: i32, month: u32, day: u32) -> (text: String)
    requires
        is_calendar_day(year as int, month as int, day as int),
    ensures
        text@ == date_text(year as int, month as int, day as int),
{
    chrono::NaiveDate::from_ymd_opt(year, month, day).unwrap().format("%Y%m%d").to_string()
}

/// Formats a minute of the day through chrono: `NaiveTime::from_hms_opt`
/// builds the time and `NaiveTime::format` writes it with the pattern `%H:%M`,
/// hour and minute zero-padded to two digits each.
#[verifier::external_body]
fn format_time(hour: u32, minute: u32) -> (text: String)
    requires
        hour < 24,
        minute < 60,
    ensures
        text@ == time_text(hour as int, minute as int),
{
    chrono::NaiveTime::from_hms_opt(hour, minute, 0).unwrap().format("%H:%M").to_string()
}

/// A time of day, counted in nanoseconds since local midnight.
#[derive(Clone, Copy, Debug, PartialEq, Eq)]
pub struct TimeOfDay {
    nanos: u64,
}

impl View for TimeOfDay {
    type V = nat;

    closed spec fn view(&self) -> nat {
        self.nanos as nat
    }
}

impl TimeOfDay {
    #[verifier::type_invariant]
    spec fn within_day(self) -> bool {
        self.nanos < NANOS_PER_DAY
    }

    /// The time of day `nanos` nanoseconds after midnight, or `None` where
    /// that is no longer the same day.
    pub fn from_nanos(nanos: u64) -> (time: Option<TimeOfDay>)
        ensures
            time is Some <==> nanos < NANOS_PER_DAY,
            time matches Some(t) ==> t@ == nanos,
    {
        if nanos < NANOS_PER_DAY {
            Some(TimeOfDay { nanos })
        } else {
            None
        }
    }

    /// The time of day at the given hour, minute and second, or `None` where
    /// one of them is out of range.
    pub fn from_hms(hour: u32, minute: u32, second: u32) -> (time: Option<TimeOfDay>)
        ensures
            time is Some <==> hour < 24 && minute < 60 && second < 60,
            time matches Some(t) ==> t@ == (hour * 3600 + minute * 60 + second) * NANOS_PER_SECOND,
    {
        TimeOfDay::from_hms_nano(hour, minute, second, 0)
    }

    /// The time of day at the given hour, minute, second and nanosecond, or
    /// `None` where hour, minute or second is out of range. A count of a
    /// whole second or more, which some clocks give during a leap second,
    /// stands for the last nanosecond of the second.
    pub fn from_hms_nano(hour: u32, minute: u32, second: u32, nano: u32) -> (time: Option<
        TimeOfDay,
    >)
        ensures
            time is Some <==> hour < 24 && minute < 60 && second < 60,
            time matches Some(t) ==> t@ == (hour * 3600 + minute * 60 + second) * NANOS_PER_SECOND
                + if nano < NANOS_PER_SECOND {
                nano as int
            } else {
                NANOS_PER_SECOND - 1
            },
    {
        if hour < 24 && minute < 60 && second < 60 {
            let seconds: u64 = hour as u64 * 3600 + minute as u64 * 60 + second as u64;
            let fraction: u64 = if (nano as u64) < NANOS_PER_SECOND {
                nano as u64
            } else {
                NANOS_PER_SECOND - 1
            };
            Some(TimeOfDay { nanos: seconds * NANOS_PER_SECOND + fraction })
        } else {
            None
        }
    }

    /// Nanoseconds since midnight.
    pub fn nanos(&self) -> (nanos: u64)
        ensures
            nanos == self@,
            nanos < NANOS_PER_DAY,
    {
        proof {
            use_type_invariant(self);
        }
        self.nanos
    }
}

/// The local date and minute at which a reading is uploaded.
#[derive(Clone, Copy, Debug, PartialEq, Eq)]
pub struct Timestamp {
    year: i32,
    month: u32,
    day: u32,
    hour: u32,
    minute: u32,
}

impl Timestamp {
    #[verifier::type_invariant]
    spec fn well_formed(self) -> bool {
        &&& is_calendar_day(self.year as int, self.month as int, self.day as int)
        &&& self.hour < 24
        &&& self.minute < 60
    }

    pub closed spec fn year(self) -> int {
        self.year as int
    }

    pub closed spec fn month(self) -> int {
        self.month as int
    }

    pub closed spec fn day(self) -> int {
        self.day as int
    }

    pub closed spec fn hour(self) -> int {
        self.hour as int
    }

    pub closed spec fn minute(self) -> int {
        self.minute as int
    }

    /// The stamp for the given local date and time, or `None` where the day
    /// does not exist or the time is not a minute of the day.
    pub fn new(year: i32, month: u32, day: u32, hour: u32, minute: u32) -> (stamp: Option<
        Timestamp,
    >)
        ensures
            stamp is Some <==> is_calendar_day(year as int, month as int, day as int) && hour < 24
                && minute < 60,
            stamp matches Some(s) ==> s.year() == year && s.month() == month && s.day() == day
                && s.hour() == hour && s.minute() == minute,
    {
        if year < 0 || year > 9999 || month < 1 || month > 12 || day < 1 || hour >= 24 || minute
            >= 60 {
            return None;
        }
        let leap: bool = year % 4 == 0 && (year % 100 != 0 || year % 400 == 0);
        let days: u32 = if month == 2 {
            if leap {
                29
            } else {
                28
            }
        } else if month == 4 || month == 6 || month == 9 || month == 11 {
            30
        } else {
            31
        };
        if day > days {
            return None;
        }
        Some(Timestamp { year, month, day, hour, minute })
    }

    /// The date as `YYYYMMDD`.
    pub fn date_string(&self) -> (text: String)
        ensures
            text@ == date_text(self.year(), self.month(), self.day()),
    {
        proof {
            use_type_invariant(self);
        }
        format_date(self.year, self.month, self.day)
    }

    /// The time as `HH:MM`.
    pub fn time_string(&self) -> (text: String)
        ensures
            text@ == time_text(self.hour(), self.minute()),
    {
        proof {
            use_type_invariant(self);
        }
        format_time(self.hour, self.minute)
    }
}

} // verus!

//! Instants and wall-clock readings, held as plain integers.
//!
//! The scheduler never looks inside a date-time value of the `chrono` crate.
//! It reads the local clock once, keeps the few numbers it needs in a
//! [`LocalMoment`], and decides everything else on those numbers.

use chrono::{Datelike, Timelike};
use vstd::prelude::*;

verus! {

/// Nanoseconds in one second.
pub const NANOS_PER_SEC: u32 = 1_000_000_000;

/// Seconds in one hour.
pub const SECS_PER_HOUR: i64 = 3600;

/// A day of the week.
#[derive(Clone, Copy, Debug, PartialEq, Eq, Structural)]
pub enum Weekday {
    Monday,
    Tuesday,
    Wednesday,
    Thursday,
    Friday,
    Saturday,
    Sunday,
}

impl Weekday {
    /// Number of days since Monday, from 0 to 6.
    pub open spec fn index(self) -> nat {
        match self {
            Weekday::Monday => 0,
            Weekday::Tuesday => 1,
            Weekday::Wednesday => 2,
            Weekday::Thursday => 3,
            Weekday::Friday => 4,
            Weekday::Saturday => 5,
            Weekday::Sunday => 6,
        }
    }

    /// The weekday that lies `index` days after Monday.
    fn at_index(index: u32) -> (day: Weekday)
        requires
            index < 7,
        ensures
            day.index() == index,
    {
        match index {
            0 => Weekday::Monday,
            1 => Weekday::Tuesday,
            2 => Weekday::Wednesday,
            3 => Weekday::Thursday,
            4 => Weekday::Friday,
            5 => Weekday::Saturday,
            _ => Weekday::Sunday,
        }
    }

    /// The weekday that lies `index` days after Monday, if `index` is below 7.
    pub fn from_index(index: u32) -> (day: Option<Weekday>)
        ensures
            index < 7 ==> day is Some && day->0.index() == index,
            index >= 7 ==> day is None,
    {
        if index < 7 {
            Some(Weekday::at_index(index))
        } else {
            None
        }
    }
}

/// A point on the absolute time line: whole seconds since the Unix epoch and
/// the nanoseconds past that second.
#[derive(Clone, Copy, Debug, PartialEq, Eq, Structural)]
pub struct Timestamp {
    pub secs: i64,
    pub nanos: u32,
}

impl Timestamp {
    /// The nanosecond part stays below one second.
    pub open spec fn wf(self) -> bool {
        self.nanos < NANOS_PER_SEC
    }

    /// Nanoseconds since the Unix epoch.
    pub open spec fn as_nanos(self) -> int {
        self.secs * 1_000_000_000 + self.nanos
    }

    /// `self` lies strictly before `other`: seconds decide, nanoseconds break
    /// the tie.
    pub open spec fn is_before(self, other: Timestamp) -> bool {
        self.secs < other.secs || (self.secs == other.secs && self.nanos < other.nanos)
    }

    /// The instant `hours` hours after `self`, where its seconds still fit.
    pub open spec fn hours_later(self, hours: u32) -> Option<Timestamp> {
        if self.secs + hours * 3600 <= i64::MAX {
            Some(Timestamp { secs: (self.secs + hours * 3600) as i64, nanos: self.nanos })
        } else {
            None
        }
    }

    /// Whole seconds from `self` to `later`, kept between 1 and `u64::MAX`.
    pub open spec fn wait_until(self, later: Timestamp) -> int {
        let whole = (later.as_nanos() - self.as_nanos()) / 1_000_000_000;
        if whole < 1 {
            1
        } else if whole > u64::MAX {
            u64::MAX as int
        } else {
            whole
        }
    }

    /// Tells whether `self` lies strictly before `other`.
    pub fn before(&self, other: &Timestamp) -> (earlier: bool)
        ensures
            earlier == self.is_before(*other),
    {
        self.secs < other.secs || (self.secs == other.secs && self.nanos < other.nanos)
    }

    /// Adds `hours` hours, or returns `None` where the seconds would overflow.
    pub fn plus_hours(&self, hours: u32) -> (later: Option<Timestamp>)
        ensures
            later == self.hours_later(hours),
    {
        let span: i64 = (hours as i64) * SECS_PER_HOUR;
        match self.secs.checked_add(span) {
            Some(secs) => Some(Timestamp { secs, nanos: self.nanos }),
            None => None,
        }
    }

    /// Whole seconds to wait from `self` until `later`, at least one.
    pub fn seconds_until(&self, later: &Timestamp) -> (seconds: u64)
        ensures
            seconds == self.wait_until(*later),
    {
        let secs: i128 = later.secs as i128 - self.secs as i128;
        let nanos: i128 = later.nanos as i128 - self.nanos as i128;
        let span: i128 = secs * 1_000_000_000 + nanos;
        if span < 1_000_000_000 {
            1
        } else {
            let whole: i128 = span / 1_000_000_000;
            if whole > u64::MAX as i128 {
                u64::MAX
            } else {
                whole as u64
            }
        }
    }
}

/// On well-formed instants, `is_before` is the order of the nanosecond counts.
pub proof fn lemma_before_is_nanosecond_order(a: Timestamp, b: Timestamp)
    requires
        a.wf(),
        b.wf(),
    ensures
        a.is_before(b) <==> a.as_nanos() < b.as_nanos(),
{
}

/// Of two instants exactly one lies before the other, unless they are equal.
pub proof fn lemma_before_is_total(a: Timestamp, b: Timestamp)
    ensures
        a.is_before(b) || b.is_before(a) || a == b,
        !(a.is_before(b) && b.is_before(a)),
        !a.is_before(a),
{
}

/// One reading of the local clock: the instant, and what the local calendar
/// and wall clock show at that instant.
#[derive(Clone, Copy, Debug, PartialEq, Eq, Structural)]
pub struct LocalMoment {
    /// The instant on the absolute time line.
    pub at: Timestamp,
    /// Local day of the week.
    pub weekday: Weekday,
    /// Whole seconds since local midnight.
    pub second_of_day: u32,
    /// Local month, 1 to 12.
    pub month: u32,
    /// Local day of the month, 1 to 31.
    pub day: u32,
}

/// Days from the start of the common era to the first day of 1970.
pub const UNIX_EPOCH_DAY: i64 = 719_163;

/// The first second of the first day that has a 32-bit day number.
pub const FIRST_CALENDAR_SEC: i64 = -185_604_722_870_400;

/// The last second of the last day that has a 32-bit day number.
pub const LAST_CALENDAR_SEC: i64 = 185_480_451_503_999;

/// The instant `secs` seconds after the Unix epoch falls on a day whose
/// number, counted from the start of the common era, fits in 32 bits. Every
/// instant that a calendar date stands for is of this kind.
pub open spec fn on_calendar(secs: i64) -> bool {
    i32::MIN <= secs / 86_400 + UNIX_EPOCH_DAY <= i32::MAX
}

/// The instants on the calendar are those between its first and its last
/// second.
pub proof fn lemma_calendar_seconds(secs: i64)
    ensures
        on_calendar(secs) <==> FIRST_CALENDAR_SEC <= secs <= LAST_CALENDAR_SEC,
{
}

/// What a clock can show: the instant is on the calendar, and the other
/// fields of a reading are in their ranges.
pub open spec fn plausible_reading(
    secs: i64,
    nanos: u32,
    days_from_monday: u32,
    second_of_day: u32,
    month: u32,
    day: u32,
) -> bool {
    &&& on_calendar(secs)
    &&& nanos < NANOS_PER_SEC
    &&& days_from_monday < 7
    &&& second_of_day < 86_400
    &&& 1 <= month <= 12
    &&& 1 <= day <= 31
}

impl LocalMoment {
    /// Every field is in the range a clock can show.
    pub open spec fn wf(self) -> bool {
        plausible_reading(
            self.at.secs,
            self.at.nanos,
            self.weekday.index() as u32,
            self.second_of_day,
            self.month,
            self.day,
        )
    }

    /// Builds a moment from its parts, or `None` where a part is out of range.
    pub fn from_parts(
        secs: i64,
        nanos: u32,
        days_from_monday: u32,
        second_of_day: u32,
        month: u32,
        day: u32,
    ) -> (moment: Option<LocalMoment>)
        ensures
            moment is Some <==> plausible_reading(
                secs,
                nanos,
                days_from_monday,
                second_of_day,
                month,
                day,
            ),
            moment matches Some(m) ==> {
                &&& m.wf()
                &&& m.at == (Timestamp { secs, nanos })
                &&& m.weekday.index() == days_from_monday
                &&& m.second_of_day == second_of_day
                &&& m.month == month
                &&& m.day == day
            },
    {
        proof {
            lemma_calendar_seconds(secs);
        }
        if FIRST_CALENDAR_SEC <= secs && secs <= LAST_CALENDAR_SEC && nanos < NANOS_PER_SEC
            && days_from_monday < 7 && second_of_day < 86_400 && 1 <= month && month <= 12 && 1
            <= day && day <= 31 {
            Some(
                LocalMoment {
                    at: Timestamp { secs, nanos },
                    weekday: Weekday::at_index(days_from_monday),
                    second_of_day,
                    month,
                    day,
                },
            )
        } else {
            None
        }
    }
}

/// From a moment that a clock can show, any number of hours up to the largest
/// 32-bit number can be added.
pub proof fn lemma_hours_fit_after_reading(now: LocalMoment, hours: u32)
    requires
        now.wf(),
    ensures
        now.at.hours_later(hours) == Some(
            Timestamp { secs: (now.at.secs + hours * 3600) as i64, nanos: now.at.nanos },
        ),
{
    lemma_calendar_seconds(now.at.secs);
}

/// Reads the local clock once.
///
/// Wraps `chrono::Local::now` and the accessors `timestamp`,
/// `timestamp_subsec_nanos`, `weekday().num_days_from_monday`,
/// `time().num_seconds_from_midnight`, `month` and `day`. The result is, in
/// that order, the six numbers they return. The contract claims only ranges:
/// chrono builds the instant with `DateTime::from_timestamp`, which gives
/// none where the day number of the instant leaves 32 bits, and from the
/// sub-second part of a duration, which is below one second; it documents a
/// weekday number from 0 to 6, a second of the day below 86400, a month from 1
/// to 12 and a day from 1 to 31. Nothing is claimed about which instant is
/// read. chrono panics where the system clock stands before the Unix epoch or
/// the offset of the local time zone cannot be found.
#[verifier::external_body]
fn read_local_clock() -> (reading: (i64, u32, u32, u32, u32, u32))
    ensures
        plausible_reading(reading.0, reading.1, reading.2, reading.3, reading.4, reading.5),
{
    let now = chrono::Local::now();
    (
        now.timestamp(),
        now.timestamp_subsec_nanos(),
        now.weekday().num_days_from_monday(),
        now.time().num_seconds_from_midnight(),
        now.month(),
        now.day(),
    )
}

/// The present moment on the local clock.
///
/// Two calls may return different moments; every one of them is well formed.
/// Where the system clock stands before 1970, or the offset of the local time
/// zone cannot be found, chrono panics and so does this function.
pub fn local_now() -> (now: LocalMoment)
    ensures
        now.wf(),
{
    let reading = read_local_clock();
    LocalMoment {
        at: Timestamp { secs: reading.0, nanos: reading.1 },
        weekday: Weekday::at_index(reading.2),
        second_of_day: reading.3,
        month: reading.4,
        day: reading.5,
    }
}

/// The format of a 24-hour `hour:minute` clock time.
pub const CLOCK_FORMAT: &'static str = "%H:%M";

/// What parsing `text` as a time of day written in `format` gives: the
/// seconds from midnight to that time, or `None` where `text` is no such time.
///
/// This names the result of `chrono::NaiveTime::parse_from_str`, which
/// depends on the text and the format alone.
pub uninterp spec fn parsed_time_of(text: Seq<char>, format: Seq<char>) -> Option<u32>;

/// What parsing `text` as a 24-hour `hour:minute` clock time gives: the
/// seconds from midnight to that time, or `None` where `text` is no such time.
pub open spec fn clock_time_of(text: Seq<char>) -> Option<u32> {
    parsed_time_of(text, CLOCK_FORMAT@)
}

/// Parses a time of day written in `format` into seconds from midnight.
///
/// Wraps `chrono::NaiveTime::parse_from_str(text, format)` followed by
/// `num_seconds_from_midnight`; a parse error, which is also what an unknown
/// format gives, becomes `None`. The contract only gives the result its name.
#[verifier::external_body]
pub(crate) fn parse_time(text: &str, format: &str) -> (time: Option<u32>)
    ensures
        time == parsed_time_of(text@, format@),
{
    match chrono::NaiveTime::parse_from_str(text, format) {
        Ok(time) => Some(time.num_seconds_from_midnight()),
        Err(_) => None,
    }
}

} // verus!

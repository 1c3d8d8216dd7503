//! Instants on the UTC time line.

use vstd::prelude::*;

verus! {

/// An instant: whole seconds since 1970-01-01T00:00:00Z and the nanoseconds
/// that follow them.
#[derive(Clone, Copy, Debug, PartialEq, Eq, Structural)]
pub struct Timestamp {
    pub secs: i64,
    pub nanos: u32,
}

/// The day count of 1 January 1970.
pub const DAYS_TO_EPOCH: i64 = 719_163;

/// The seconds of a day without a leap second.
pub const SECONDS_PER_DAY: i64 = 86_400;

impl Timestamp {
    /// Whether `self` lies strictly before `other`: seconds decide, and
    /// nanoseconds break a tie.
    pub open spec fn precedes(self, other: Timestamp) -> bool {
        self.secs < other.secs || (self.secs == other.secs && self.nanos < other.nanos)
    }

    /// The instant `secs` seconds after `self`, or the last second that can
    /// be written down if that comes first.
    pub open spec fn later_by(self, secs: u32) -> Timestamp {
        if self.secs + secs > i64::MAX {
            Timestamp { secs: i64::MAX, nanos: self.nanos }
        } else {
            Timestamp { secs: (self.secs + secs) as i64, nanos: self.nanos }
        }
    }

    /// The instant `secs` seconds after `self`, or the last second that can
    /// be written down if that comes first.
    pub fn plus_seconds(&self, secs: u32) -> (r: Timestamp)
        ensures
            r == self.later_by(secs),
    {
        let step: i64 = secs as i64;
        if self.secs > i64::MAX - step {
            Timestamp { secs: i64::MAX, nanos: self.nanos }
        } else {
            Timestamp { secs: self.secs + step, nanos: self.nanos }
        }
    }

    /// Midnight UTC at the start of a day, given as the count of days in the
    /// proleptic Gregorian calendar on which 1 January of the year 1 is day 1.
    pub open spec fn midnight_of(days_from_ce: i32) -> Timestamp {
        Timestamp { secs: ((days_from_ce - DAYS_TO_EPOCH) * SECONDS_PER_DAY) as i64, nanos: 0 }
    }

    /// Midnight UTC at the start of a day, given as the count of days in the
    /// proleptic Gregorian calendar on which 1 January of the year 1 is day 1.
    pub fn midnight_of_day(days_from_ce: i32) -> (r: Timestamp)
        ensures
            r == Timestamp::midnight_of(days_from_ce),
    {
        let days: i64 = days_from_ce as i64;
        Timestamp { secs: (days - DAYS_TO_EPOCH) * SECONDS_PER_DAY, nanos: 0 }
    }

    /// Whether `self` lies strictly before `other`.
    pub fn is_before(&self, other: &Timestamp) -> (r: bool)
        ensures
            r == self.precedes(*other),
    {
        self.secs < other.secs || (self.secs == other.secs && self.nanos < other.nanos)
    }
}

/// The day that a text names when read by a format of `strftime` kind, as
/// the count of days in the proleptic Gregorian calendar on which 1 January
/// of the year 1 is day 1; `None` where the text names no day in that
/// format.
pub uninterp spec fn day_of(text: Seq<char>, format: Seq<char>) -> Option<i32>;

/// Parses with `chrono::NaiveDate::parse_from_str` and counts the days with
/// `Datelike::num_days_from_ce`.
///
/// Believed without proof: the result is a function of the text and the
/// format alone, and `None` stands for a parse error.
#[verifier::external_body]
fn parse_day(text: &str, format: &str) -> (r: Option<i32>)
    ensures
        r == day_of(text@, format@),
{
    let date = chrono::NaiveDate::parse_from_str(text, format).ok()?;
    Some(chrono::Datelike::num_days_from_ce(&date))
}

/// The format in which a due date is written: year, month and day, each in
/// digits, with hyphens between them.
pub open spec fn due_date_format() -> Seq<char> {
    "%Y-%m-%d"@
}

/// The due date on a day: midnight UTC at its start.
pub open spec fn due_date_of(day: Option<i32>) -> Option<Timestamp> {
    match day {
        Some(d) => Some(Timestamp::midnight_of(d)),
        None => None,
    }
}

/// Reads a due date in the form year-month-day: midnight UTC at the start of
/// that day, or `None` where the text names no day in that form.
pub fn parse_due_date(text: &str) -> (r: Option<Timestamp>)
    ensures
        r == due_date_of(day_of(text@, due_date_format())),
{
    match parse_day(text, "%Y-%m-%d") {
        Some(days) => Some(Timestamp::midnight_of_day(days)),
        None => None,
    }
}

/// Reads the clock.
///
/// Calls `std::time::SystemTime::now`, turns the result into a
/// `chrono::DateTime<Utc>` with chrono's `From<SystemTime>`, which takes an
/// instant before 1970 as well as one after it, and takes that apart with
/// `DateTime::timestamp` and `DateTime::timestamp_subsec_nanos`. The value
/// depends on when the call is made, so nothing is promised of it.
#[verifier::external_body]
pub(crate) fn now() -> (t: Timestamp) {
    let t = chrono::DateTime::<chrono::Utc>::from(std::time::SystemTime::now());
    Timestamp { secs: t.timestamp(), nanos: t.timestamp_subsec_nanos() }
}

} // verus!

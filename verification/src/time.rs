//! The time that a request names: a full date and time, or a time of day, which
//! is taken to be of today.

use vstd::prelude::*;
use chrono::Timelike;
use crate::text::{trim, trimmed};

verus! {

/// An instant that a request named, in milliseconds since the Unix epoch.
#[derive(Clone, Copy, Debug, PartialEq, Eq, Structural)]
pub struct ParsableTime(pub i64);

/// The instant that `s` names as an RFC 3339 date and time, in milliseconds since
/// the Unix epoch, or the words in which `chrono` says why it names none.
pub uninterp spec fn rfc3339_millis(s: Seq<char>) -> Result<i64, Seq<char>>;

/// The time of day that `s` names when read by the `chrono` format `format`:
/// the seconds since midnight and the nanoseconds of that second, or `None`
/// where `s` does not fit the format.
pub uninterp spec fn clock_reading(s: Seq<char>, format: Seq<char>) -> Option<(u32, u32)>;

/// `chrono::DateTime::parse_from_rfc3339`, with the date and time that it read
/// given in milliseconds since the Unix epoch, and its error in its own words.
#[verifier::external_body]
fn parse_rfc3339(s: &str) -> (r: Result<i64, String>)
    ensures
        match r {
            Ok(t) => rfc3339_millis(s@) == Ok::<i64, Seq<char>>(t),
            Err(m) => rfc3339_millis(s@) == Err::<i64, Seq<char>>(m@),
        },
{
    match chrono::DateTime::parse_from_rfc3339(s) {
        Ok(dt) => Ok(dt.timestamp_millis()),
        Err(e) => Err(e.to_string()),
    }
}

/// `chrono::NaiveTime::parse_from_str`, with the time of day that it read given
/// as seconds since midnight and nanoseconds.
#[verifier::external_body]
fn parse_clock(s: &str, format: &str) -> (r: Option<(u32, u32)>)
    ensures
        r == clock_reading(s@, format@),
{
    match chrono::NaiveTime::parse_from_str(s, format) {
        Ok(t) => Some((t.num_seconds_from_midnight(), t.nanosecond())),
        Err(_) => None,
    }
}

/// `chrono::Local::now` and `DateTime::with_time`: the instant at which the local
/// clock shows the given time of day today, in milliseconds since the Unix epoch.
/// There is none where the numbers are no time of day, or where the local clock
/// skips that time today or shows it twice. Nothing else is promised: the answer
/// depends on the day and on the time zone.
#[verifier::external_body]
fn today_at(seconds: u32, nanos: u32) -> Option<i64> {
    let time = chrono::NaiveTime::from_num_seconds_from_midnight_opt(seconds, nanos)?;
    chrono::Local::now().with_time(time).single().map(|dt| dt.timestamp_millis())
}

/// The message for a time that is left empty.
pub open spec fn empty_time() -> Seq<char> {
    "Time cannot be empty"@
}

/// The message for a time that cannot be read, with the reason why it is no date
/// and time.
pub open spec fn unreadable_time(reason: Seq<char>) -> Seq<char> {
    "failed to parse time: "@ + reason
}

/// The time of day that `text` names: hours, minutes and seconds, or hours and
/// minutes.
pub open spec fn clock_of(text: Seq<char>) -> Option<(u32, u32)> {
    match clock_reading(text, "%H:%M:%S"@) {
        Some(c) => Some(c),
        None => clock_reading(text, "%H:%M"@),
    }
}

impl ParsableTime {
    /// Reads the time that a request names. White space around it is passed over.
    /// A full date and time according to RFC 3339 is taken as it is. Otherwise
    /// a time of day, with or without seconds, is taken to be of today by the
    /// local clock. Anything else is refused, with the reason why it is no date
    /// and time.
    pub fn from_value(value: &str) -> (r: Result<ParsableTime, String>)
        ensures
            ({
                let text = trimmed(value@);
                if text.len() == 0 {
                    r matches Err(m) && m@ == empty_time()
                } else {
                    match rfc3339_millis(text) {
                        Ok(t) => r == Ok::<ParsableTime, String>(ParsableTime(t)),
                        Err(reason) => match clock_of(text) {
                            None => r matches Err(m) && m@ == unreadable_time(reason),
                            Some(_) => r matches Err(m) ==> m@ == unreadable_time(reason),
                        },
                    }
                }
            }),
    {
        let text = trim(value);
        if text.is_empty() {
            return Err(String::from_str("Time cannot be empty"));
        }
        match parse_rfc3339(text) {
            Ok(t) => Ok(ParsableTime(t)),
            Err(reason) => {
                let today = match Self::read_clock(text) {
                    Some((seconds, nanos)) => today_at(seconds, nanos),
                    None => None,
                };
                Self::of_today(today, reason.as_str())
            },
        }
    }

    /// The time of day that `text` names, as seconds since midnight and
    /// nanoseconds: read as hours, minutes and seconds, or else as hours and
    /// minutes; `None` where it is neither.
    pub fn read_clock(text: &str) -> (r: Option<(u32, u32)>)
        ensures
            r == clock_of(text@),
    {
        match parse_clock(text, "%H:%M:%S") {
            Some(c) => Some(c),
            None => parse_clock(text, "%H:%M"),
        }
    }

    /// The time for a time of day that the local clock shows today at `today`, or
    /// the refusal for one that it does not show; `reason` says why the text was no
    /// date and time.
    pub fn of_today(today: Option<i64>, reason: &str) -> (r: Result<ParsableTime, String>)
        ensures
            match today {
                Some(t) => r == Ok::<ParsableTime, String>(ParsableTime(t)),
                None => r matches Err(m) && m@ == unreadable_time(reason@),
            },
    {
        match today {
            Some(t) => Ok(ParsableTime(t)),
            None => {
                let mut m = String::from_str("failed to parse time: ");
                m.append(reason);
                Err(m)
            },
        }
    }

    /// The instant in milliseconds since the Unix epoch.
    pub fn millis(self) -> (t: i64)
        ensures
            t == self.0,
    {
        self.0
    }
}

} // verus!

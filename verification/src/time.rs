//! Instants, ages and the textual forms of a date and time.
//!
//! Reading and writing calendar dates is left to `chrono`; what it returns is
//! named here and carried through the contracts of this crate.

use chrono::{DateTime, SecondsFormat, Utc};
use vstd::prelude::*;

use crate::text::concat;

verus! {

/// Pattern of a date and time written as digits down to the minute, followed
/// by an offset from UTC.
pub const COMPACT_FORMAT: &'static str = "%Y%m%d%H%M%z";

/// The offset that is appended to a token before it is read with
/// [`COMPACT_FORMAT`].
pub const UTC_OFFSET: &'static str = "+0000";

/// The minutes that are appended to a token that ends with the hour.
pub const FULL_HOUR: &'static str = "00";

/// Nanoseconds in one second.
pub const NANOS_PER_SECOND: i128 = 1_000_000_000;

/// An instant: seconds since 1970-01-01T00:00:00Z, not counting leap seconds,
/// and the nanoseconds past that second.
#[derive(Clone, Copy, Debug, PartialEq, Eq, Structural)]
pub struct Timestamp {
    pub seconds: i64,
    pub nanos: u32,
}

/// What `chrono::DateTime::parse_from_str` makes of `text` under `format`:
/// the seconds and nanoseconds of the instant, or `None` where it reports an
/// error.
pub uninterp spec fn parsed_instant(text: Seq<char>, format: Seq<char>) -> Option<(i64, u32)>;

/// What `chrono`'s `FromStr` for `DateTime<Utc>` makes of `text`: the seconds
/// and nanoseconds of the instant, or `None` where it reports an error.
pub uninterp spec fn rfc3339_instant(text: Seq<char>) -> Option<(i64, u32)>;

/// What `chrono::DateTime::to_rfc3339_opts` writes, at second precision and
/// with `Z` for UTC, for the instant that `chrono::DateTime::from_timestamp`
/// makes of the two numbers; `None` where it makes none.
pub uninterp spec fn rfc3339_text(seconds: i64, nanos: u32) -> Option<Seq<char>>;

/// The quotient of `n` by a positive `d`, rounded toward zero.
pub open spec fn toward_zero(n: int, d: int) -> int {
    if n >= 0 {
        n / d
    } else {
        -((-n) / d)
    }
}

/// Nanoseconds from `then` to `now`.
pub open spec fn elapsed_nanos(now: Timestamp, then: Timestamp) -> int {
    (now.seconds - then.seconds) * 1_000_000_000 + (now.nanos - then.nanos)
}

/// Whole seconds from `then` to `now`, rounded toward zero.
pub open spec fn age_in_seconds(now: Timestamp, then: Timestamp) -> int {
    toward_zero(elapsed_nanos(now, then), 1_000_000_000)
}

/// Whole minutes in a number of seconds, rounded toward zero.
pub open spec fn whole_minutes(seconds: int) -> int {
    toward_zero(seconds, 60)
}

/// The instant that a pair of seconds and nanoseconds stands for.
pub open spec fn instant_of(pair: Option<(i64, u32)>) -> Option<Timestamp> {
    match pair {
        Some((seconds, nanos)) => Some(Timestamp { seconds, nanos }),
        None => None,
    }
}

/// The text that is handed to the parser for a token that ends with the minute.
pub open spec fn minute_text(token: Seq<char>) -> Seq<char> {
    token + UTC_OFFSET@
}

/// The text that is handed to the parser for a token that ends with the hour.
pub open spec fn hour_text(token: Seq<char>) -> Seq<char> {
    token + FULL_HOUR@ + UTC_OFFSET@
}

/// Calls `chrono::DateTime::parse_from_str` and takes the result apart with
/// `timestamp` and `timestamp_subsec_nanos`. The contract claims only that the
/// result is a function of the two texts.
#[verifier::external_body]
fn chrono_parse(text: &str, format: &str) -> (parsed: Option<Timestamp>)
    ensures
        parsed == instant_of(parsed_instant(text@, format@)),
{
    let instant = DateTime::parse_from_str(text, format).ok()?;
    Some(Timestamp { seconds: instant.timestamp(), nanos: instant.timestamp_subsec_nanos() })
}

/// Calls `chrono`'s `FromStr` for `DateTime<Utc>`, which reads a relaxed form
/// of RFC 3339 and converts to UTC, and takes the result apart with
/// `timestamp` and `timestamp_subsec_nanos`. The contract claims only that the
/// result is a function of the text.
#[verifier::external_body]
fn chrono_parse_rfc3339(text: &str) -> (parsed: Option<Timestamp>)
    ensures
        parsed == instant_of(rfc3339_instant(text@)),
{
    let instant = text.parse::<DateTime<Utc>>().ok()?;
    Some(Timestamp { seconds: instant.timestamp(), nanos: instant.timestamp_subsec_nanos() })
}

/// Calls `chrono::DateTime::from_timestamp`, which returns `None` for numbers
/// out of range, and `to_rfc3339_opts` with `SecondsFormat::Secs` and `Z`. The
/// contract claims only that the result is a function of the two numbers.
#[verifier::external_body]
fn chrono_rfc3339(seconds: i64, nanos: u32) -> (written: Option<String>)
    ensures
        written is Some == rfc3339_text(seconds, nanos) is Some,
        written matches Some(text) ==> rfc3339_text(seconds, nanos) == Some(text@),
{
    let instant = DateTime::<Utc>::from_timestamp(seconds, nanos)?;
    Some(instant.to_rfc3339_opts(SecondsFormat::Secs, true))
}

impl Timestamp {
    /// An instant at a whole second.
    pub fn at(seconds: i64) -> (instant: Timestamp)
        ensures
            instant == (Timestamp { seconds, nanos: 0 }),
    {
        Timestamp { seconds, nanos: 0 }
    }

    /// Reads a token of the form `YYYYMMDDHHMM` as an instant in UTC.
    pub fn from_compact_minutes(token: &str) -> (parsed: Option<Timestamp>)
        ensures
            parsed == instant_of(parsed_instant(minute_text(token@), COMPACT_FORMAT@)),
    {
        let text = concat(token, UTC_OFFSET);
        chrono_parse(text.as_str(), COMPACT_FORMAT)
    }

    /// Reads a token of the form `YYYYMMDDHH` as an instant in UTC, at the
    /// full hour.
    pub fn from_compact_hours(token: &str) -> (parsed: Option<Timestamp>)
        ensures
            parsed == instant_of(parsed_instant(hour_text(token@), COMPACT_FORMAT@)),
    {
        let padded = concat(token, FULL_HOUR);
        let text = concat(padded.as_str(), UTC_OFFSET);
        chrono_parse(text.as_str(), COMPACT_FORMAT)
    }

    /// Reads a date and time in RFC 3339 form, converted to UTC.
    pub fn from_rfc3339(text: &str) -> (parsed: Option<Timestamp>)
        ensures
            parsed == instant_of(rfc3339_instant(text@)),
    {
        chrono_parse_rfc3339(text)
    }

    /// Writes the instant in RFC 3339 form, at second precision, in UTC.
    pub fn to_rfc3339(&self) -> (written: Option<String>)
        ensures
            written is Some == rfc3339_text(self.seconds, self.nanos) is Some,
            written matches Some(text) ==> rfc3339_text(self.seconds, self.nanos) == Some(text@),
    {
        chrono_rfc3339(self.seconds, self.nanos)
    }
}

/// Whole seconds from `then` to `now`, rounded toward zero.
pub fn age_seconds(now: Timestamp, then: Timestamp) -> (age: i128)
    ensures
        age == age_in_seconds(now, then),
{
    let seconds: i128 = now.seconds as i128 - then.seconds as i128;
    let nanos: i128 = now.nanos as i128 - then.nanos as i128;
    let elapsed: i128 = seconds * NANOS_PER_SECOND + nanos;
    elapsed / NANOS_PER_SECOND
}

/// Whole minutes in a number of seconds, rounded toward zero.
pub fn minutes_of(seconds: i128) -> (minutes: i128)
    ensures
        minutes == whole_minutes(seconds as int),
{
    seconds / 60
}

} // verus!

//! The local calendar and clock, as chrono keeps them. Nothing in this file
//! is proved: each function states what is taken on trust from chrono.

use vstd::prelude::*;
use chrono::offset::LocalResult;
use chrono::{DateTime, Datelike, Local, NaiveDateTime, TimeZone};
use crate::release::{ReleaseStart, Weekday};

verus! {

/// chrono's error for a text that does not follow a pattern.
#[verifier::external_type_specification]
#[verifier::external_body]
pub struct ExParseError(chrono::ParseError);

/// What `NaiveDateTime::parse_from_str` of chrono reads from `text` under the
/// strftime `pattern`: nothing where it turns the text down, else the seconds
/// that the date and time lie after 1970-01-01 00:00:00, and the days from
/// Monday to the date's weekday.
pub uninterp spec fn parsed_wall_clock(text: Seq<char>, pattern: Seq<char>) -> Option<(int, int)>;

/// How a date and time of the wall clock falls into the local time zone.
#[derive(Clone, Copy, Debug, PartialEq, Eq, Structural)]
pub enum LocalResolution {
    /// It names exactly one instant.
    Single,
    /// It names two instants: the clock was turned back over it.
    Ambiguous,
    /// It names no instant: the clock was turned forward over it.
    Nonexistent,
    /// It lies outside the dates that the calendar can hold.
    OutOfRange,
}

/// Calls `NaiveDateTime::parse_from_str` on `text` and `pattern`. Trusted: the
/// call succeeds or fails by its two arguments alone, and on success the
/// result holds the seconds that `DateTime::timestamp` gives for the parsed
/// date and time, read as if on the UTC clock, and the weekday that
/// `Datelike::weekday` gives for it.
#[verifier::external_body]
pub(crate) fn parse_wall_clock(text: &str, pattern: &str) -> (r: Result<
    ReleaseStart,
    chrono::ParseError,
>)
    ensures
        r is Ok <==> parsed_wall_clock(text@, pattern@) is Some,
        r matches Ok(start) ==> parsed_wall_clock(text@, pattern@) == Some(
            (start.seconds as int, start.weekday.offset()),
        ),
{
    let parsed = NaiveDateTime::parse_from_str(text, pattern)?;
    let weekday = match parsed.weekday() {
        chrono::Weekday::Mon => Weekday::Monday,
        chrono::Weekday::Tue => Weekday::Tuesday,
        chrono::Weekday::Wed => Weekday::Wednesday,
        chrono::Weekday::Thu => Weekday::Thursday,
        chrono::Weekday::Fri => Weekday::Friday,
        chrono::Weekday::Sat => Weekday::Saturday,
        chrono::Weekday::Sun => Weekday::Sunday,
    };
    Ok(ReleaseStart { seconds: parsed.and_utc().timestamp(), weekday })
}

/// Calls `TimeZone::from_local_datetime` on chrono's `Local`, for the date
/// and time that lie `seconds` after 1970-01-01 00:00:00 on the wall clock.
/// Nothing is promised of the result: it hangs on the time zone of the
/// machine.
#[verifier::external_body]
pub(crate) fn resolve_in_local_zone(seconds: i64) -> LocalResolution {
    match DateTime::from_timestamp(seconds, 0) {
        None => LocalResolution::OutOfRange,
        Some(utc) => match Local.from_local_datetime(&utc.naive_utc()) {
            LocalResult::Single(_) => LocalResolution::Single,
            LocalResult::Ambiguous(_, _) => LocalResolution::Ambiguous,
            LocalResult::None => LocalResolution::Nonexistent,
        },
    }
}

/// Calls `Local::now` of chrono and gives the seconds that the local date
/// and time lie after 1970-01-01 00:00:00 on the wall clock. Nothing is
/// promised of the result: it is the machine's clock. chrono does not return
/// from the call where that clock stands before 1970.
#[verifier::external_body]
pub(crate) fn wall_clock_now() -> i64 {
    Local::now().naive_local().and_utc().timestamp()
}

} // verus!

//! The availability calculator: how many episodes of a show have been
//! released by a given instant, and whether one of them is still unwatched.

use vstd::prelude::*;
use crate::localtime::{
    parse_wall_clock, parsed_wall_clock, resolve_in_local_zone, wall_clock_now, LocalResolution,
};
use crate::release::{
    elapsed_days, empty_schedule_is_never_available, rejection, released_through,
    releases_nothing, total_released_at, verdict, AvailabilityError, ReleaseStart, Weekday,
    MAX_ELAPSED_DAYS, SECONDS_PER_DAY,
};

verus! {

/// Whole days from the start to `now`, where the start does not lie ahead.
fn whole_days_since(start: i64, now: i64) -> (days: u64)
    requires
        start <= now,
    ensures
        days == elapsed_days(start as int, now as int),
{
    let span: i128 = now as i128 - start as i128;
    let seconds: u128 = span as u128;
    (seconds / (SECONDS_PER_DAY as u128)) as u64
}

/// Counts the episodes released from the start day to the day `now` lies in,
/// one day after the other. The start day counts as soon as it has begun.
///
/// Fails with `ReleaseInFuture` when `now` lies before the start, and with
/// `DateOutOfRange` when more than `MAX_ELAPSED_DAYS` days have passed.
pub fn total_released(start: ReleaseStart, schedule: &[u32; 7], now: i64) -> (r: Result<
    u64,
    AvailabilityError,
>)
    ensures
        r is Err <==> rejection(start.seconds as int, now as int) is Some,
        r matches Err(e) ==> rejection(start.seconds as int, now as int) == Some(e),
        r matches Ok(total) ==> total == total_released_at(start, schedule@, now as int),
{
    if now < start.seconds {
        return Err(AvailabilityError::ReleaseInFuture);
    }
    let days: u64 = whole_days_since(start.seconds, now);
    if days > MAX_ELAPSED_DAYS {
        return Err(AvailabilityError::DateOutOfRange);
    }
    let first: usize = start.weekday.days_from_monday();
    let mut total: u64 = 0;
    let mut day: u64 = 0;
    let mut slot: usize = first;
    while day <= days
        invariant
            day <= days + 1,
            days <= MAX_ELAPSED_DAYS,
            first < 7,
            slot == (first + day) % 7,
            total == released_through(schedule@, first as int, day - 1),
            total <= day * 0xffff_ffff,
        decreases days + 1 - day,
    {
        total = total + schedule[slot] as u64;
        day = day + 1;
        slot = if slot == 6 { 0 } else { slot + 1 };
    }
    Ok(total)
}

/// Tells whether, by `now`, more episodes have been released than the
/// `watched` ones. `now` is given in seconds on the clock of `start`.
///
/// Fails as `total_released` does; a start that lies ahead is an error, not
/// a plain `false`.
pub fn new_episode_available(
    start: ReleaseStart,
    watched: u32,
    schedule: &[u32; 7],
    now: i64,
) -> (r: Result<bool, AvailabilityError>)
    ensures
        r == verdict(start, watched, schedule@, now as int),
        now < start.seconds ==> r == Err::<bool, AvailabilityError>(
            AvailabilityError::ReleaseInFuture,
        ),
        releases_nothing(schedule@) ==> r != Ok::<bool, AvailabilityError>(true),
{
    proof {
        if releases_nothing(schedule@) {
            empty_schedule_is_never_available(start, watched, schedule@, now as int);
        }
    }
    match total_released(start, schedule, now) {
        Ok(total) => Ok(total > watched as u64),
        Err(e) => Err(e),
    }
}

/// The pattern that a release time is written in: year, month and day, then
/// hour and minute.
pub const RELEASE_TIME_PATTERN: &'static str = "%Y-%m-%d %H:%M";

/// The start that a parsed release time stands for: its seconds and the
/// days from Monday to its weekday.
pub open spec fn release_start_of(parsed: (int, int)) -> ReleaseStart {
    ReleaseStart { seconds: parsed.0 as i64, weekday: Weekday::at_offset(parsed.1) }
}

/// Lets a start pass if the local zone gives it exactly one instant.
///
/// A time that the zone's clock skipped or ran through twice is an error,
/// and so is one beyond the calendar.
pub fn settle_release_start(start: ReleaseStart, resolution: LocalResolution) -> (r: Result<
    ReleaseStart,
    AvailabilityError,
>)
    ensures
        r == match resolution {
            LocalResolution::Single => Ok::<ReleaseStart, AvailabilityError>(start),
            LocalResolution::Ambiguous => Err(AvailabilityError::AmbiguousOrNonexistentLocalTime),
            LocalResolution::Nonexistent => Err(
                AvailabilityError::AmbiguousOrNonexistentLocalTime,
            ),
            LocalResolution::OutOfRange => Err(AvailabilityError::DateOutOfRange),
        },
{
    match resolution {
        LocalResolution::Single => Ok(start),
        LocalResolution::Ambiguous => Err(AvailabilityError::AmbiguousOrNonexistentLocalTime),
        LocalResolution::Nonexistent => Err(AvailabilityError::AmbiguousOrNonexistentLocalTime),
        LocalResolution::OutOfRange => Err(AvailabilityError::DateOutOfRange),
    }
}

/// Reads a release time written as `YYYY-MM-DD HH:MM` on the local calendar.
///
/// A text that does not follow the pattern gives `InvalidDateFormat`, and
/// nothing else does. A time that the local zone does not resolve to one
/// instant gives the error that `settle_release_start` has for it.
pub fn read_release_start(time: &str) -> (r: Result<ReleaseStart, AvailabilityError>)
    ensures
        match parsed_wall_clock(time@, RELEASE_TIME_PATTERN@) {
            None => r == Err::<ReleaseStart, AvailabilityError>(
                AvailabilityError::InvalidDateFormat,
            ),
            Some(parsed) => r == Ok::<ReleaseStart, AvailabilityError>(release_start_of(parsed))
                || r == Err::<ReleaseStart, AvailabilityError>(
                AvailabilityError::AmbiguousOrNonexistentLocalTime,
            ) || r == Err::<ReleaseStart, AvailabilityError>(AvailabilityError::DateOutOfRange),
        },
{
    match parse_wall_clock(time, RELEASE_TIME_PATTERN) {
        Err(_) => Err(AvailabilityError::InvalidDateFormat),
        Ok(start) => settle_release_start(start, resolve_in_local_zone(start.seconds)),
    }
}

/// Tells whether a show has an episode that the viewer has not watched yet:
/// whether, by `now`, its schedule has released more than `watched_count`
/// episodes since `release_start`.
///
/// `release_start` is written as `YYYY-MM-DD HH:MM` on the local calendar,
/// `schedule` holds the episodes of each weekday from Monday to Sunday, and
/// `now` is given in seconds on the local wall clock. A start that cannot be
/// read fails as `read_release_start` says; one that lies after `now` fails
/// with `ReleaseInFuture`.
pub fn is_new_episode_available(
    release_start: &str,
    watched_count: u32,
    schedule: [u32; 7],
    now: i64,
) -> (r: Result<bool, AvailabilityError>)
    ensures
        match parsed_wall_clock(release_start@, RELEASE_TIME_PATTERN@) {
            None => r == Err::<bool, AvailabilityError>(AvailabilityError::InvalidDateFormat),
            Some(parsed) => r == verdict(
                release_start_of(parsed),
                watched_count,
                schedule@,
                now as int,
            ) || r == Err::<bool, AvailabilityError>(
                AvailabilityError::AmbiguousOrNonexistentLocalTime,
            ) || r == Err::<bool, AvailabilityError>(AvailabilityError::DateOutOfRange),
        },
        releases_nothing(schedule@) ==> r != Ok::<bool, AvailabilityError>(true),
{
    match read_release_start(release_start) {
        Err(e) => Err(e),
        Ok(start) => new_episode_available(start, watched_count, &schedule, now),
    }
}

/// Whether there is an instant at which the calculator says that a show has
/// an episode beyond the `watched` ones: its release time can be read, and
/// with the start read from it the answer is `true` at some instant.
pub open spec fn available_at_some_instant(time: Seq<char>, watched: u32, schedule: Seq<u32>) -> bool {
    parsed_wall_clock(time, RELEASE_TIME_PATTERN@) matches Some(parsed) && exists|now: i64|
        verdict(release_start_of(parsed), watched, schedule, now as int) == Ok::<
            bool,
            AvailabilityError,
        >(true)
}

/// Whether a show has new episodes, where the calculator may have failed:
/// a failure counts as none.
pub fn available_or_not(answer: Result<bool, AvailabilityError>) -> (available:
    bool)
    ensures
        available == (answer == Ok::<bool, AvailabilityError>(true)),
{
    match answer {
        Ok(available) => available,
        Err(_) => false,
    }
}

/// Tells whether a show has an episode that the viewer has not watched yet,
/// as `is_new_episode_available` does, at the instant that the machine's
/// clock shows.
pub fn check_new_episodes_available(time: &str, current_episode: u32, schedule: [u32; 7]) -> (r:
    Result<bool, AvailabilityError>)
    ensures
        match parsed_wall_clock(time@, RELEASE_TIME_PATTERN@) {
            None => r == Err::<bool, AvailabilityError>(AvailabilityError::InvalidDateFormat),
            Some(parsed) => (exists|now: i64|
                r == verdict(release_start_of(parsed), current_episode, schedule@, now as int))
                || r == Err::<bool, AvailabilityError>(
                AvailabilityError::AmbiguousOrNonexistentLocalTime,
            ) || r == Err::<bool, AvailabilityError>(AvailabilityError::DateOutOfRange),
        },
        r == Ok::<bool, AvailabilityError>(true) ==> available_at_some_instant(
            time@,
            current_episode,
            schedule@,
        ),
        releases_nothing(schedule@) ==> r != Ok::<bool, AvailabilityError>(true),
{
    let now: i64 = wall_clock_now();
    is_new_episode_available(time, current_episode, schedule, now)
}

} // verus!

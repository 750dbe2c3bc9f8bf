//! The weekly release schedule of a show and the count of episodes it has
//! released, as mathematics: the model that the calculator is proved against.

use vstd::prelude::*;

verus! {

/// Seconds in one calendar day; elapsed days are whole multiples of it.
pub const SECONDS_PER_DAY: i64 = 86_400;

/// The largest number of elapsed days that the calculator works on. A start
/// that lies further back than this is reported as out of range.
pub const MAX_ELAPSED_DAYS: u64 = 3_660_000;

/// A day of the week. A schedule is indexed by `offset`: Monday is 0, Sunday is 6.
#[derive(Clone, Copy, Debug, PartialEq, Eq, Structural)]
pub enum Weekday {
    Monday,
    Tuesday,
    Wednesday,
    Thursday,
    Friday,
    Saturday,
    Sunday,
}

impl Weekday {
    /// The number of days from Monday to this day.
    pub open spec fn offset(self) -> int {
        match self {
            Weekday::Monday => 0,
            Weekday::Tuesday => 1,
            Weekday::Wednesday => 2,
            Weekday::Thursday => 3,
            Weekday::Friday => 4,
            Weekday::Saturday => 5,
            Weekday::Sunday => 6,
        }
    }

    /// The day that lies `n` days after a Monday; Sunday for every `n` that
    /// is no such number.
    pub open spec fn at_offset(n: int) -> Weekday {
        if n == 0 {
            Weekday::Monday
        } else if n == 1 {
            Weekday::Tuesday
        } else if n == 2 {
            Weekday::Wednesday
        } else if n == 3 {
            Weekday::Thursday
        } else if n == 4 {
            Weekday::Friday
        } else if n == 5 {
            Weekday::Saturday
        } else {
            Weekday::Sunday
        }
    }

    /// The index of this day in a schedule.
    pub fn days_from_monday(self) -> (n: usize)
        ensures
            n == self.offset(),
            n < 7,
    {
        match self {
            Weekday::Monday => 0,
            Weekday::Tuesday => 1,
            Weekday::Wednesday => 2,
            Weekday::Thursday => 3,
            Weekday::Friday => 4,
            Weekday::Saturday => 5,
            Weekday::Sunday => 6,
        }
    }

    /// The day that lies `n` days after a Monday, for `n` below 7.
    pub fn from_days_from_monday(n: u32) -> (day: Option<Weekday>)
        ensures
            day is Some <==> n < 7,
            day matches Some(d) ==> d.offset() == n,
    {
        match n {
            0 => Some(Weekday::Monday),
            1 => Some(Weekday::Tuesday),
            2 => Some(Weekday::Wednesday),
            3 => Some(Weekday::Thursday),
            4 => Some(Weekday::Friday),
            5 => Some(Weekday::Saturday),
            6 => Some(Weekday::Sunday),
            _ => None,
        }
    }
}

/// The first release of a show, on the local calendar.
#[derive(Clone, Copy, Debug, PartialEq, Eq, Structural)]
pub struct ReleaseStart {
    /// Seconds on the local wall clock, counted from 1970-01-01 00:00:00 of
    /// the same clock.
    pub seconds: i64,
    /// The weekday of the calendar day that `seconds` lies in.
    pub weekday: Weekday,
}

/// Why the calculator gives no answer.
#[derive(Clone, Copy, Debug, PartialEq, Eq, Structural)]
pub enum AvailabilityError {
    /// The release time is not written as `YYYY-MM-DD HH:MM`.
    InvalidDateFormat,
    /// The release time does not name exactly one instant of the local zone.
    AmbiguousOrNonexistentLocalTime,
    /// The release starts after the instant of evaluation.
    ReleaseInFuture,
    /// The release time lies outside the dates that the calculator works on.
    DateOutOfRange,
}

/// Whole days from `start` to `now`, both in seconds on one clock. A part of
/// a day does not count.
pub open spec fn elapsed_days(start: int, now: int) -> int {
    (now - start) / (SECONDS_PER_DAY as int)
}

/// The episodes of the day that lies `day` days after the start day.
pub open spec fn released_on(schedule: Seq<u32>, start_weekday: int, day: int) -> int {
    schedule[(start_weekday + day) % 7] as int
}

/// The episodes released on the days `0..=last` after the start day, the start
/// day being day 0. Before day 0 nothing is released.
pub open spec fn released_through(schedule: Seq<u32>, start_weekday: int, last: int) -> int
    decreases last + 1,
{
    if last < 0 {
        0
    } else {
        released_through(schedule, start_weekday, last - 1) + released_on(
            schedule,
            start_weekday,
            last,
        )
    }
}

/// The episodes that a schedule releases in one week.
pub open spec fn released_per_week(schedule: Seq<u32>) -> int {
    schedule[0] + schedule[1] + schedule[2] + schedule[3] + schedule[4] + schedule[5]
        + schedule[6]
}

/// Why there is no count for a start and an instant of evaluation, if there
/// is none: the start lies ahead, or too far back.
pub open spec fn rejection(start: int, now: int) -> Option<AvailabilityError> {
    if now < start {
        Some(AvailabilityError::ReleaseInFuture)
    } else if elapsed_days(start, now) > MAX_ELAPSED_DAYS {
        Some(AvailabilityError::DateOutOfRange)
    } else {
        None
    }
}

/// The episodes that have been released by `now`, the start day included.
pub open spec fn total_released_at(start: ReleaseStart, schedule: Seq<u32>, now: int) -> int {
    released_through(schedule, start.weekday.offset(), elapsed_days(start.seconds as int, now))
}

/// Whether an episode beyond the `watched` ones has been released by `now`.
pub open spec fn available_at(start: ReleaseStart, watched: u32, schedule: Seq<u32>, now: int) -> bool {
    total_released_at(start, schedule, now) > watched
}

/// What the calculator answers for a start, a count of watched episodes, a
/// schedule and an instant of evaluation.
pub open spec fn verdict(start: ReleaseStart, watched: u32, schedule: Seq<u32>, now: int) -> Result<
    bool,
    AvailabilityError,
> {
    match rejection(start.seconds as int, now) {
        Some(e) => Err(e),
        None => Ok(available_at(start, watched, schedule, now)),
    }
}

/// A schedule as the calculator takes it: one count for each day of the week.
pub open spec fn is_weekly(schedule: Seq<u32>) -> bool {
    schedule.len() == 7
}

/// No day of the schedule releases anything.
pub open spec fn releases_nothing(schedule: Seq<u32>) -> bool {
    forall|i: int| 0 <= i < 7 ==> schedule[i] == 0
}

/// The schedule releases one episode a week, on the day `weekday`.
pub open spec fn releases_once_a_week(schedule: Seq<u32>, weekday: Weekday) -> bool {
    forall|i: int| 0 <= i < 7 ==> schedule[i] == (if i == weekday.offset() { 1u32 } else { 0u32 })
}

/// A count of released episodes is never negative.
pub proof fn released_through_is_not_negative(schedule: Seq<u32>, start_weekday: int, last: int)
    ensures
        released_through(schedule, start_weekday, last) >= 0,
    decreases last + 1,
{
    if last >= 0 {
        released_through_is_not_negative(schedule, start_weekday, last - 1);
    }
}

/// Counting through a later day never gives less than counting through an
/// earlier one.
pub proof fn released_through_grows(schedule: Seq<u32>, start_weekday: int, earlier: int, later: int)
    requires
        earlier <= later,
    ensures
        released_through(schedule, start_weekday, earlier) <= released_through(
            schedule,
            start_weekday,
            later,
        ),
    decreases later - earlier,
{
    if earlier < later {
        released_through_grows(schedule, start_weekday, earlier, later - 1);
    }
}

/// The episodes of the seven days that begin with the weekday `first`.
pub open spec fn released_in_week_from(schedule: Seq<u32>, first: int) -> int {
    schedule[first % 7] + schedule[(first + 1) % 7] + schedule[(first + 2) % 7] + schedule[(first
        + 3) % 7] + schedule[(first + 4) % 7] + schedule[(first + 5) % 7] + schedule[(first + 6)
        % 7]
}

/// Seven days in a row hold every weekday once: they release what the
/// schedule releases in one week, whatever weekday they begin with.
pub proof fn any_seven_days_are_a_week(schedule: Seq<u32>, first: int)
    requires
        0 <= first < 7,
    ensures
        released_in_week_from(schedule, first) == released_per_week(schedule),
{
    if first == 0 {
    } else if first == 1 {
    } else if first == 2 {
    } else if first == 3 {
    } else if first == 4 {
    } else if first == 5 {
    } else {
    }
}

/// The weekday that lies `more` days after the day `day` is the one that
/// lies `more` days after the weekday of `day`.
pub proof fn weekday_moves_with_the_day(day: int, more: int)
    ensures
        (day + more) % 7 == (day % 7 + more) % 7,
{
}

/// One more day adds the episodes of its weekday, which lies as many days
/// after the weekday of day `from` as the day lies after day `from`.
pub proof fn released_through_one_more_day(
    schedule: Seq<u32>,
    start_weekday: int,
    from: int,
    more: int,
)
    requires
        from >= 0,
        more >= 0,
    ensures
        released_through(schedule, start_weekday, from + more) == released_through(
            schedule,
            start_weekday,
            from + more - 1,
        ) + schedule[((start_weekday + from) % 7 + more) % 7],
{
    weekday_moves_with_the_day(start_weekday + from, more);
}

/// Seven more days add what the schedule releases in one week, whatever day
/// the count stood at.
pub proof fn released_through_one_more_week(schedule: Seq<u32>, start_weekday: int, last: int)
    requires
        is_weekly(schedule),
        0 <= start_weekday < 7,
        last >= -1,
    ensures
        released_through(schedule, start_weekday, last + 7) == released_through(
            schedule,
            start_weekday,
            last,
        ) + released_per_week(schedule),
{
    let next: int = last + 1;
    released_through_one_more_day(schedule, start_weekday, next, 0);
    released_through_one_more_day(schedule, start_weekday, next, 1);
    released_through_one_more_day(schedule, start_weekday, next, 2);
    released_through_one_more_day(schedule, start_weekday, next, 3);
    released_through_one_more_day(schedule, start_weekday, next, 4);
    released_through_one_more_day(schedule, start_weekday, next, 5);
    released_through_one_more_day(schedule, start_weekday, next, 6);
    any_seven_days_are_a_week(schedule, (start_weekday + next) % 7);
}

/// The count splits into whole weeks and the days left over: after `weeks`
/// whole weeks and `rest` more days the schedule has released `weeks` times
/// its weekly sum and what it releases through day `rest`.
pub proof fn released_through_by_weeks(
    schedule: Seq<u32>,
    start_weekday: int,
    weeks: int,
    rest: int,
)
    requires
        is_weekly(schedule),
        0 <= start_weekday < 7,
        weeks >= 0,
        rest >= -1,
    ensures
        released_through(schedule, start_weekday, 7 * weeks + rest) == weeks * released_per_week(
            schedule,
        ) + released_through(schedule, start_weekday, rest),
    decreases weeks,
{
    if weeks > 0 {
        released_through_by_weeks(schedule, start_weekday, weeks - 1, rest);
        released_through_one_more_week(schedule, start_weekday, 7 * (weeks - 1) + rest);
        assert(weeks * released_per_week(schedule) == (weeks - 1) * released_per_week(schedule)
            + released_per_week(schedule)) by (nonlinear_arith);
    } else {
        assert(weeks * released_per_week(schedule) == 0) by (nonlinear_arith)
            requires
                weeks == 0,
        ;
    }
}

/// For one start and one schedule, the count of released episodes never
/// falls as the instant of evaluation moves on.
pub proof fn total_released_never_falls(
    start: ReleaseStart,
    schedule: Seq<u32>,
    earlier: int,
    later: int,
)
    requires
        is_weekly(schedule),
        earlier <= later,
    ensures
        total_released_at(start, schedule, earlier) <= total_released_at(start, schedule, later),
{
    released_through_grows(
        schedule,
        start.weekday.offset(),
        elapsed_days(start.seconds as int, earlier),
        elapsed_days(start.seconds as int, later),
    );
}

/// A schedule of zeros never releases an episode: at every instant the count
/// is 0, and nothing is available, whatever has been watched.
pub proof fn empty_schedule_is_never_available(
    start: ReleaseStart,
    watched: u32,
    schedule: Seq<u32>,
    now: int,
)
    requires
        is_weekly(schedule),
        releases_nothing(schedule),
    ensures
        total_released_at(start, schedule, now) == 0,
        !available_at(start, watched, schedule, now),
{
    released_through_of_nothing(
        schedule,
        start.weekday.offset(),
        elapsed_days(start.seconds as int, now),
    );
}

/// Through whatever day, a schedule of zeros has released nothing.
pub proof fn released_through_of_nothing(schedule: Seq<u32>, start_weekday: int, last: int)
    requires
        is_weekly(schedule),
        releases_nothing(schedule),
        0 <= start_weekday < 7,
    ensures
        released_through(schedule, start_weekday, last) == 0,
    decreases last + 1,
{
    if last >= 0 {
        released_through_of_nothing(schedule, start_weekday, last - 1);
    }
}

/// With one episode a week, released on the weekday of the start, `weeks`
/// whole weeks after the start `weeks + 1` episodes are out: the one of the
/// start day and one for each week since. The days of a week that has not
/// run out add nothing.
pub proof fn weekly_episode_count_is_exact(
    start: ReleaseStart,
    schedule: Seq<u32>,
    now: int,
    weeks: int,
)
    requires
        is_weekly(schedule),
        releases_once_a_week(schedule, start.weekday),
        weeks >= 0,
        7 * weeks <= elapsed_days(start.seconds as int, now) < 7 * weeks + 7,
    ensures
        total_released_at(start, schedule, now) == weeks + 1,
{
    let first: int = start.weekday.offset();
    let rest: int = elapsed_days(start.seconds as int, now) - 7 * weeks;
    released_through_by_weeks(schedule, first, weeks, rest);
    assert(released_per_week(schedule) == 1);
    first_week_of_weekly_episode(schedule, start.weekday, rest);
    assert(weeks * released_per_week(schedule) == weeks) by (nonlinear_arith)
        requires
            released_per_week(schedule) == 1,
    ;
}

/// With one episode a week, released on the weekday of the start, the first
/// week holds one episode from its first day to its last.
pub proof fn first_week_of_weekly_episode(schedule: Seq<u32>, weekday: Weekday, last: int)
    requires
        is_weekly(schedule),
        releases_once_a_week(schedule, weekday),
        0 <= last < 7,
    ensures
        released_through(schedule, weekday.offset(), last) == 1,
    decreases last,
{
    if last > 0 {
        first_week_of_weekly_episode(schedule, weekday, last - 1);
        assert((weekday.offset() + last) % 7 != weekday.offset());
    } else {
        reveal_with_fuel(released_through, 2);
    }
}

/// At the very instant of the start the count is what the schedule gives for
/// the start's weekday: the first day counts at once.
pub proof fn start_day_counts_at_once(start: ReleaseStart, schedule: Seq<u32>)
    requires
        is_weekly(schedule),
    ensures
        total_released_at(start, schedule, start.seconds as int) == schedule[start.weekday.offset()],
{
    reveal_with_fuel(released_through, 2);
}

/// An instant before the start is turned away as such; no count is made, so
/// none can be negative.
pub proof fn start_ahead_is_rejected(start: ReleaseStart, now: int)
    requires
        now < start.seconds,
    ensures
        rejection(start.seconds as int, now) == Some(AvailabilityError::ReleaseInFuture),
{
}

} // verus!

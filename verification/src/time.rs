//! The week clock: instants are whole seconds since 1970-01-01 00:00:00 UTC,
//! and a week runs from Monday 00:00 UTC to the next.

use vstd::prelude::*;

verus! {

/// Seconds in one minute.
pub const SECONDS_PER_MINUTE: i64 = 60;

/// Seconds in one week.
pub const SECONDS_PER_WEEK: i64 = 604_800;

/// Minutes in one week; week-minutes run from 0 to one less than this.
pub const MINUTES_PER_WEEK: i64 = 10_080;

/// Seconds from Monday 1969-12-29 00:00 UTC to the epoch, which fell on a
/// Thursday.
pub const EPOCH_INTO_WEEK: i64 = 259_200;

/// Seconds elapsed at instant `t` since the most recent Monday 00:00 UTC.
pub open spec fn seconds_into_week(t: int) -> int {
    (t + EPOCH_INTO_WEEK as int) % (SECONDS_PER_WEEK as int)
}

/// The instant of the most recent Monday 00:00 UTC at or before `t`.
pub open spec fn week_start_of(t: int) -> int {
    t - seconds_into_week(t)
}

/// Whole minutes elapsed at instant `t` since the most recent Monday 00:00 UTC.
pub open spec fn week_minute_of(t: int) -> int {
    seconds_into_week(t) / (SECONDS_PER_MINUTE as int)
}

/// Whether `t` is a Monday 00:00:00 UTC.
pub open spec fn is_week_start(t: int) -> bool {
    (t + EPOCH_INTO_WEEK as int) % (SECONDS_PER_WEEK as int) == 0
}

/// Seconds elapsed since the most recent Monday 00:00 UTC.
pub fn into_week(now: i64) -> (r: i64)
    ensures
        r == seconds_into_week(now as int),
        0 <= r < SECONDS_PER_WEEK,
{
    let base: i64 = match now.checked_rem_euclid(SECONDS_PER_WEEK) {
        Some(b) => b,
        None => 0,
    };
    let shifted: i64 = base + EPOCH_INTO_WEEK;
    if shifted >= SECONDS_PER_WEEK {
        shifted - SECONDS_PER_WEEK
    } else {
        shifted
    }
}

/// Minutes since the most recent Monday 00:00 UTC, truncated to whole minutes.
pub fn to_week_minute(now: i64) -> (tick: i64)
    ensures
        tick == week_minute_of(now as int),
        0 <= tick < MINUTES_PER_WEEK,
{
    let secs: i64 = into_week(now);
    (secs as u64 / 60) as i64
}

/// The instant of the most recent Monday 00:00 UTC.
///
/// The week that holds the smallest representable instants began before
/// them, so those instants are left out.
pub fn week_start(now: i64) -> (start: i64)
    requires
        now - (SECONDS_PER_WEEK - 1) >= i64::MIN,
    ensures
        start == week_start_of(now as int),
        is_week_start(start as int),
        start <= now < start + SECONDS_PER_WEEK,
{
    let secs: i64 = into_week(now);
    now - secs
}

/// Every instant has a week-minute between 0 and 10079, and the start of its
/// week has week-minute 0, is a Monday midnight, and lies less than a week
/// before it.
pub proof fn lemma_week_minute_range(t: int)
    ensures
        0 <= week_minute_of(t) <= 10_079,
        week_minute_of(week_start_of(t)) == 0,
        is_week_start(week_start_of(t)),
        week_start_of(t) <= t < week_start_of(t) + 604_800,
        week_start_of(week_start_of(t)) == week_start_of(t),
{
}

/// The week clock rolls over: the last minute of a week is 10079, and the
/// instant sixty seconds after any instant of that minute has week-minute 0.
pub proof fn lemma_week_minute_wraps(t: int)
    requires
        week_minute_of(t) == 10_079,
    ensures
        week_minute_of(t + 60) == 0,
{
}

/// Within a week, the week-minute advances by one every sixty seconds.
pub proof fn lemma_week_minute_steps(t: int)
    requires
        week_minute_of(t) < 10_079,
    ensures
        week_minute_of(t + 60) == week_minute_of(t) + 1,
{
}

} // verus!

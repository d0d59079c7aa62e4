//! The rules of the weekly schedule: which check a week-minute fires, against
//! which goal it measures, and from when it counts the work.

use vstd::prelude::*;
use crate::datatypes::{Settings, Weekday};

verus! {

/// The day whose check fires when the triggers of several days equal the same
/// week-minute. Among the other days the earliest in the week fires.
pub const PREFERRED_SLOT: Weekday = Weekday::Sunday;

/// Seconds in one hour of goal.
pub const SECONDS_PER_HOUR: i64 = 3600;

/// Whether the check of `day` fires at week-minute `tick`: the trigger equals
/// the tick exactly.
pub open spec fn fires_at(settings: Settings, day: Weekday, tick: int) -> bool {
    settings.trigger_of(day) == tick
}

/// The day whose check fires at week-minute `tick`, if any does: Sunday if
/// its trigger equals the tick, and else the earliest day whose trigger does.
pub open spec fn matched_slot_of(settings: Settings, tick: int) -> Option<Weekday> {
    if fires_at(settings, PREFERRED_SLOT, tick) {
        Some(PREFERRED_SLOT)
    } else if fires_at(settings, Weekday::Monday, tick) {
        Some(Weekday::Monday)
    } else if fires_at(settings, Weekday::Tuesday, tick) {
        Some(Weekday::Tuesday)
    } else if fires_at(settings, Weekday::Wednesday, tick) {
        Some(Weekday::Wednesday)
    } else if fires_at(settings, Weekday::Thursday, tick) {
        Some(Weekday::Thursday)
    } else if fires_at(settings, Weekday::Friday, tick) {
        Some(Weekday::Friday)
    } else if fires_at(settings, Weekday::Saturday, tick) {
        Some(Weekday::Saturday)
    } else {
        None
    }
}

/// The goal in hours against which the check of `slot` measures: the day's
/// own goal, and for Sunday the weekly total.
pub open spec fn goal_hours_of(settings: Settings, slot: Weekday) -> int {
    if slot == Weekday::Sunday {
        settings.weekly_goal_of()
    } else {
        settings.goal_of(slot)
    }
}

/// The goal in seconds against which the check of `slot` measures.
pub open spec fn goal_seconds_of(settings: Settings, slot: Weekday) -> int {
    goal_hours_of(settings, slot) * 3600
}

/// The week-minute from which the check of `slot` counts the work: the
/// trigger of the day before, and the start of the week for Monday, which has
/// no day before it in the week, and for Sunday, which counts the whole week.
pub open spec fn window_minute_of(settings: Settings, slot: Weekday) -> int {
    match slot {
        Weekday::Monday => 0,
        Weekday::Sunday => 0,
        _ => settings.trigger_of(slot.day_before()),
    }
}

/// Finds the day whose check fires at week-minute `tick`.
pub fn matched_slot(settings: &Settings, tick: i64) -> (slot: Option<Weekday>)
    ensures
        slot == matched_slot_of(*settings, tick as int),
{
    if settings.trigger(PREFERRED_SLOT) == tick {
        Some(PREFERRED_SLOT)
    } else if settings.monday.0 == tick {
        Some(Weekday::Monday)
    } else if settings.tuesday.0 == tick {
        Some(Weekday::Tuesday)
    } else if settings.wednesday.0 == tick {
        Some(Weekday::Wednesday)
    } else if settings.thursday.0 == tick {
        Some(Weekday::Thursday)
    } else if settings.friday.0 == tick {
        Some(Weekday::Friday)
    } else if settings.saturday.0 == tick {
        Some(Weekday::Saturday)
    } else {
        None
    }
}

/// The goal in seconds against which the check of `slot` measures.
pub fn goal_seconds(settings: &Settings, slot: Weekday) -> (seconds: i64)
    ensures
        seconds == goal_seconds_of(*settings, slot),
{
    let hours: i64 = match slot {
        Weekday::Sunday => settings.weekly_goal(),
        _ => settings.goal(slot) as i64,
    };
    hours * SECONDS_PER_HOUR
}

/// The week-minute from which the check of `slot` counts the work.
pub fn window_minute(settings: &Settings, slot: Weekday) -> (minute: i64)
    ensures
        minute == window_minute_of(*settings, slot),
{
    match slot {
        Weekday::Monday => 0,
        Weekday::Sunday => 0,
        _ => settings.trigger(slot.previous()),
    }
}

/// A check fires at a week-minute exactly when some day's trigger equals it;
/// the day that fires has that trigger; Sunday fires whenever its trigger
/// equals the minute; and a day other than Sunday fires only if no earlier
/// day of the week has that trigger too.
pub proof fn lemma_matched_slot(settings: Settings, tick: int)
    ensures
        matched_slot_of(settings, tick) is None <==> forall|day: Weekday|
            !fires_at(settings, day, tick),
        matched_slot_of(settings, tick) matches Some(slot) ==> fires_at(settings, slot, tick),
        fires_at(settings, Weekday::Sunday, tick) ==> matched_slot_of(settings, tick) == Some(
            Weekday::Sunday,
        ),
        matched_slot_of(settings, tick) matches Some(slot) ==> slot == Weekday::Sunday
            || forall|day: Weekday|
            day.index_of() < slot.index_of() ==> !fires_at(settings, day, tick),
{
    if matched_slot_of(settings, tick) is None {
        assert forall|day: Weekday| !fires_at(settings, day, tick) by {
            match day {
                Weekday::Monday => {},
                Weekday::Tuesday => {},
                Weekday::Wednesday => {},
                Weekday::Thursday => {},
                Weekday::Friday => {},
                Weekday::Saturday => {},
                Weekday::Sunday => {},
            }
        }
    }
}

/// The Sunday check measures against the weekly total, so changing the goal
/// of any one day by some amount changes the Sunday goal by that amount times
/// 3600 seconds, and the check of every other day but the changed one keeps
/// its goal.
pub proof fn lemma_sunday_goal_follows_day_goal(settings: Settings, day: Weekday, hours: i32)
    ensures
        ({
            let changed = settings.with_entry_of(day, (settings.entry_of(day).0, hours));
            &&& goal_hours_of(changed, Weekday::Sunday) - goal_hours_of(settings, Weekday::Sunday)
                == hours - settings.goal_of(day)
            &&& goal_seconds_of(changed, Weekday::Sunday) - goal_seconds_of(
                settings,
                Weekday::Sunday,
            ) == (hours - settings.goal_of(day)) * 3600
            &&& forall|other: Weekday|
                other != day && other != Weekday::Sunday ==> goal_seconds_of(changed, other)
                    == goal_seconds_of(settings, other)
        }),
{
}

} // verus!

//! Wall-clock texts: times of day as the settings page shows them in the
//! user's own offset from UTC, and instants as the time-keeping service wants
//! them written. `chrono` reads and writes the texts.

use vstd::prelude::*;
use crate::datatypes::{Settings, Weekday};
use crate::text::digit_char;
use crate::time::{into_week, week_start_of};

verus! {

/// The RFC 3339 text that `chrono` writes for the instant `secs` seconds after
/// the epoch, in UTC, and `None` where `chrono` has no date for it.
pub uninterp spec fn rfc3339_text(secs: i64) -> Option<Seq<char>>;

/// The hour and minute that `chrono` reads from `text` under the format
/// `%H:%M`, and `None` where it does not accept the text.
pub uninterp spec fn parsed_clock(text: Seq<char>) -> Option<(u32, u32)>;

/// A time of day written as two digits of the hour, a colon and two digits of
/// the minute.
pub open spec fn clock_text_of(hour: int, minute: int) -> Seq<char> {
    seq![
        digit_char(hour / 10),
        digit_char(hour % 10),
        ':',
        digit_char(minute / 10),
        digit_char(minute % 10),
    ]
}

/// `chrono::DateTime::from_timestamp` followed by `DateTime::to_rfc3339`:
/// the text of an instant, which depends on `secs` alone and which
/// [`rfc3339_text`] names. `chrono` has a date for every instant from the
/// epoch to the end of the year 9999, so for those the text is owed.
#[verifier::external_body]
pub(crate) fn rfc3339(secs: i64) -> (r: Option<String>)
    ensures
        match r {
            Some(text) => rfc3339_text(secs) == Some(text@),
            None => rfc3339_text(secs) is None,
        },
        0 <= secs < 253_402_300_800 ==> r is Some,
{
    match chrono::DateTime::from_timestamp(secs, 0) {
        Some(instant) => Some(instant.to_rfc3339()),
        None => None,
    }
}

/// `chrono::NaiveTime::parse_from_str` with the format `%H:%M`, and the hour
/// and minute of what it read. The result depends on the text alone;
/// [`parsed_clock`] names it. `chrono` gives hours below 24 and minutes below
/// 60.
#[verifier::external_body]
pub(crate) fn parse_clock(text: &str) -> (r: Option<(u32, u32)>)
    ensures
        r == parsed_clock(text@),
        r matches Some(clock) ==> clock.0 < 24 && clock.1 < 60,
{
    match chrono::NaiveTime::parse_from_str(text, "%H:%M") {
        Ok(read) => Some((chrono::Timelike::hour(&read), chrono::Timelike::minute(&read))),
        Err(_) => None,
    }
}

/// `chrono::NaiveTime::format` with the format `%H:%M`: the hour and the
/// minute, each padded with a zero to two digits, with a colon between.
#[verifier::external_body]
pub(crate) fn write_clock(hour: u32, minute: u32) -> (r: String)
    requires
        hour < 24,
        minute < 60,
    ensures
        r@ == clock_text_of(hour as int, minute as int),
{
    match chrono::NaiveTime::from_hms_opt(hour, minute, 0) {
        Some(time) => time.format("%H:%M").to_string(),
        None => String::new(),
    }
}

/// A number of seconds in whole minutes, rounded toward zero.
pub open spec fn whole_minutes(secs: int) -> int {
    if secs >= 0 {
        secs / 60
    } else {
        -((-secs) / 60)
    }
}

/// The week-minute in UTC of the time of day `clock` on `day`, for a user
/// whose clock is `offset` seconds ahead of UTC; 0 where there is no time of
/// day. It is negative, or beyond the week, where the user's day begins or
/// ends outside the UTC week.
pub open spec fn utc_minute_of(clock: Option<(u32, u32)>, day: Weekday, offset: int) -> int {
    match clock {
        Some(read) => whole_minutes(
            day.index_of() * 86_400 + read.0 * 3600 + read.1 * 60 - offset,
        ),
        None => 0,
    }
}

/// The second of the day, on a clock `offset` seconds ahead of UTC, at which
/// week-minute `minute` begins.
pub open spec fn local_second_of(minute: int, offset: int) -> int {
    (minute * 60 + offset) % 86_400
}

/// The time of day, on a clock `offset` seconds ahead of UTC, of week-minute
/// `minute`, written as `HH:MM`.
pub open spec fn local_clock_of(minute: int, offset: int) -> Seq<char> {
    clock_text_of(
        local_second_of(minute, offset) / 3600,
        (local_second_of(minute, offset) % 3600) / 60,
    )
}

/// A time of day that was turned into a week-minute in UTC is written back
/// as it was entered, on the same clock, wherever that clock is a whole number
/// of minutes ahead of UTC or behind it.
pub proof fn lemma_local_clock_round_trip(hour: u32, minute: u32, day: Weekday, offset: int)
    requires
        hour < 24,
        minute < 60,
        offset % 60 == 0,
    ensures
        local_clock_of(utc_minute_of(Some((hour, minute)), day, offset), offset) == clock_text_of(
            hour as int,
            minute as int,
        ),
{
    let entered = day.index_of() * 86_400 + hour * 3600 + minute * 60;
    let stored = utc_minute_of(Some((hour, minute)), day, offset);
    assert(stored * 60 == entered - offset);
    assert(local_second_of(stored, offset) == hour * 3600 + minute * 60);
}

/// The week-minute in UTC for a time of day on a given day, where the time
/// was read from [`parse_clock`] or is missing.
pub fn utc_minute(clock: Option<(u32, u32)>, day: Weekday, offset_seconds: i32) -> (minute: i64)
    ensures
        minute == utc_minute_of(clock, day, offset_seconds as int),
{
    match clock {
        Some(read) => {
            let secs: i64 = day.index() as i64 * 86_400 + read.0 as i64 * 3600 + read.1 as i64 * 60
                - offset_seconds as i64;
            if secs >= 0 {
                (secs as u64 / 60) as i64
            } else {
                -(((-secs) as u64 / 60) as i64)
            }
        },
        None => 0,
    }
}

/// Turns a time of day that the user entered as `HH:MM`, on `day` and on a
/// clock `offset_seconds` ahead of UTC, into a week-minute in UTC. A text that
/// is no time of day gives 0.
pub fn to_utc(orig_time: &str, day: Weekday, offset_seconds: i32) -> (minute: i64)
    ensures
        minute == utc_minute_of(parsed_clock(orig_time@), day, offset_seconds as int),
{
    utc_minute(parse_clock(orig_time), day, offset_seconds)
}

/// Writes the time of day of week-minute `orig_time` as `HH:MM` on a clock
/// `offset_seconds` ahead of UTC.
pub fn from_utc(orig_time: i64, offset_seconds: i32) -> (text: String)
    ensures
        text@ == local_clock_of(orig_time as int, offset_seconds as int),
{
    let minute_of_day: i64 = match orig_time.checked_rem_euclid(1440) {
        Some(m) => m,
        None => 0,
    };
    let shifted: i64 = minute_of_day * 60 + offset_seconds as i64;
    let second: i64 = match shifted.checked_rem_euclid(86_400) {
        Some(s) => s,
        None => 0,
    };
    assert(second == local_second_of(orig_time as int, offset_seconds as int));
    let hour: u32 = (second as u64 / 3600) as u32;
    let minute: u32 = ((second as u64 % 3600) / 60) as u32;
    write_clock(hour, minute)
}

/// The instant at which week-minute `minute` of the week of `now` begins.
pub open spec fn minute_instant_of(now: int, minute: int) -> int {
    week_start_of(now) + minute * 60
}

/// The instant at which week-minute `minute` of the week of `now` begins, or
/// `None` where it is not a representable instant.
pub fn minute_instant(now: i64, minute: i64) -> (r: Option<i64>)
    ensures
        r == if i64::MIN <= minute_instant_of(now as int, minute as int) <= i64::MAX {
            Some(minute_instant_of(now as int, minute as int) as i64)
        } else {
            None::<i64>
        },
{
    let into: i64 = into_week(now);
    let wide: i128 = now as i128 - into as i128 + minute as i128 * 60;
    if wide < i64::MIN as i128 || wide > i64::MAX as i128 {
        None
    } else {
        Some(wide as i64)
    }
}

/// Turns the schedule that a user entered, seven times of day and seven
/// goals from Monday to Sunday on a clock `offset_seconds` ahead of UTC, into
/// settings in UTC. `None` unless there are seven of each.
pub fn settings_to_utc(clocks: &Vec<String>, goals: &Vec<i32>, offset_seconds: i32) -> (r: Option<
    Settings,
>)
    ensures
        r is Some <==> clocks.len() == 7 && goals.len() == 7,
        r matches Some(settings) ==> forall|day: Weekday|
            settings.trigger_of(day) == utc_minute_of(
                parsed_clock(clocks@[day.index_of()]@),
                day,
                offset_seconds as int,
            ) && settings.goal_of(day) == goals@[#[trigger] day.index_of()],
{
    if clocks.len() != 7 || goals.len() != 7 {
        return None;
    }
    let settings = Settings {
        monday: (to_utc(clocks[0].as_str(), Weekday::Monday, offset_seconds), goals[0]),
        tuesday: (to_utc(clocks[1].as_str(), Weekday::Tuesday, offset_seconds), goals[1]),
        wednesday: (to_utc(clocks[2].as_str(), Weekday::Wednesday, offset_seconds), goals[2]),
        thursday: (to_utc(clocks[3].as_str(), Weekday::Thursday, offset_seconds), goals[3]),
        friday: (to_utc(clocks[4].as_str(), Weekday::Friday, offset_seconds), goals[4]),
        saturday: (to_utc(clocks[5].as_str(), Weekday::Saturday, offset_seconds), goals[5]),
        sunday: (to_utc(clocks[6].as_str(), Weekday::Sunday, offset_seconds), goals[6]),
    };
    Some(settings)
}

/// Writes the seven triggers of a schedule, from Monday to Sunday, as times of
/// day on a clock `offset_seconds` ahead of UTC.
pub fn settings_to_local(settings: &Settings, offset_seconds: i32) -> (clocks: Vec<String>)
    ensures
        clocks.len() == 7,
        forall|day: Weekday|
            clocks@[#[trigger] day.index_of()]@ == local_clock_of(
                settings.trigger_of(day),
                offset_seconds as int,
            ),
{
    let mut clocks: Vec<String> = Vec::new();
    clocks.push(from_utc(settings.monday.0, offset_seconds));
    clocks.push(from_utc(settings.tuesday.0, offset_seconds));
    clocks.push(from_utc(settings.wednesday.0, offset_seconds));
    clocks.push(from_utc(settings.thursday.0, offset_seconds));
    clocks.push(from_utc(settings.friday.0, offset_seconds));
    clocks.push(from_utc(settings.saturday.0, offset_seconds));
    clocks.push(from_utc(settings.sunday.0, offset_seconds));
    clocks
}

} // verus!

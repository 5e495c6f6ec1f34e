//! Days, weekdays and wall-clock seconds.
//!
//! A day is counted in the proleptic Gregorian calendar with 0001-01-01 as
//! day 1, which is a Monday. A time is counted in seconds of the wall clock
//! since 1970-01-01 00:00:00. Text forms of both are read and written by
//! `chrono`.

use vstd::prelude::*;

verus! {

/// 0001-01-01, the first day a schedule may hold.
pub const FIRST_DAY: i32 = 1;

/// 9999-12-31, the last day a schedule may hold.
pub const LAST_DAY: i32 = 3_652_059;

/// Seconds in one day.
pub const SECONDS_PER_DAY: i64 = 86_400;

/// Position of a day in its week: 0 for Monday up to 6 for Sunday.
pub open spec fn weekday_index(day: int) -> int {
    (day + 6) % 7
}

/// Days from `day` to the next day, strictly later, that falls on weekday
/// `target`: a whole week when `day` already falls on it.
pub open spec fn step_to_weekday(day: int, target: int) -> int {
    let gap = (target - weekday_index(day)) % 7;
    if gap == 0 {
        7
    } else {
        gap
    }
}

/// The day on which episode `k` of a show airs, counting from 0.
///
/// The first episode airs on the start day, whatever its weekday. The second
/// airs on the next day that falls on `target`, and every later one a week
/// after the one before.
pub open spec fn episode_day(start: int, target: int, k: nat) -> int {
    if k == 0 {
        start
    } else {
        start + step_to_weekday(start, target) + 7 * (k - 1)
    }
}

/// The weekday of `day`, 0 for Monday up to 6 for Sunday.
pub fn weekday_of(day: i32) -> (index: u8)
    ensures
        index == weekday_index(day as int),
{
    let shifted: i64 = day as i64 + 6;
    if shifted >= 0 {
        (shifted % 7) as u8
    } else {
        let back: i64 = (-shifted) % 7;
        if back == 0 {
            0
        } else {
            (7 - back) as u8
        }
    }
}

/// The next day after `day` that falls on weekday `target`.
pub fn next_air_day(day: i32, target: u8) -> (next: i32)
    requires
        target < 7,
        day <= i32::MAX - 7,
    ensures
        next == day + step_to_weekday(day as int, target as int),
        day < next <= day + 7,
        weekday_index(next as int) == target,
{
    let today: u8 = weekday_of(day);
    let step: i32 = if target > today {
        (target - today) as i32
    } else {
        7 - (today - target) as i32
    };
    day + step
}

/// Each episode airs a step after the one before: the step from its day to
/// the next day on the target weekday.
pub proof fn lemma_episode_day_step(start: int, target: int, k: nat)
    requires
        0 <= target < 7,
    ensures
        episode_day(start, target, k + 1) == episode_day(start, target, k) + step_to_weekday(
            episode_day(start, target, k),
            target,
        ),
{
    if k > 0 {
        let first = start + step_to_weekday(start, target);
        assert(weekday_index(first) == target);
        let here = episode_day(start, target, k);
        assert(here == first + 7 * (k - 1));
        assert(weekday_index(here) == target);
    }
}

/// Air days never go back. From the second episode on they fall on the
/// target weekday and lie exactly seven days apart; only the step from the
/// first episode to the second may be shorter, when the start day is not on
/// the target weekday.
pub proof fn lemma_schedule_spacing(start: int, target: int, k: nat)
    requires
        0 <= target < 7,
    ensures
        episode_day(start, target, k) < episode_day(start, target, k + 1),
        k >= 1 ==> episode_day(start, target, k + 1) - episode_day(start, target, k) == 7,
        k >= 1 ==> weekday_index(episode_day(start, target, k)) == target,
        1 <= episode_day(start, target, 1) - episode_day(start, target, 0) <= 7,
        weekday_index(start) == target ==> episode_day(start, target, 1) - start == 7,
{
    if k >= 1 {
        let first = start + step_to_weekday(start, target);
        assert(weekday_index(first) == target);
        assert(episode_day(start, target, k) == first + 7 * (k - 1));
    }
}

/// Air days are ordered as their episodes are.
pub proof fn lemma_schedule_ordered(start: int, target: int, i: nat, j: nat)
    requires
        0 <= target < 7,
        i <= j,
    ensures
        episode_day(start, target, i) <= episode_day(start, target, j),
        i < j ==> episode_day(start, target, i) < episode_day(start, target, j),
{
}

/// The day number that `chrono` reads from a start date written as
/// `YYYYMMDD`, or `None` where it reads no date.
pub uninterp spec fn start_day_of(text: Seq<char>) -> Option<int>;

/// The text that `chrono` writes for hour `hour` of day `day`, as
/// `YYYY-MM-DD HH:00:00`.
pub uninterp spec fn schedule_text(day: int, hour: int) -> Seq<char>;

/// The seconds since 1970-01-01 00:00:00 that `chrono` reads from a time
/// written as `YYYY-MM-DD HH:MM:SS`, or `None` where it reads no time.
pub uninterp spec fn timestamp_of(text: Seq<char>) -> Option<int>;

/// The seconds since 1970-01-01 00:00:00 UTC that `chrono` reads from an
/// RFC 3339 time, or `None` where it reads no time.
pub uninterp spec fn instant_of(text: Seq<char>) -> Option<int>;

/// Reads a start date with `chrono::NaiveDate::parse_from_str` and the format
/// `%Y%m%d`, and counts its days with `Datelike::num_days_from_ce`.
///
/// Trusted: the result is the one named by [`start_day_of`], which says only
/// that the same text always reads as the same day.
#[verifier::external_body]
pub(crate) fn parse_start_date(text: &str) -> (day: Option<i32>)
    ensures
        day matches Some(d) ==> start_day_of(text@) == Some(d as int),
        day is None ==> start_day_of(text@) is None,
{
    match chrono::NaiveDate::parse_from_str(text, "%Y%m%d") {
        Ok(date) => Some(chrono::Datelike::num_days_from_ce(&date)),
        Err(_) => None,
    }
}

/// Writes hour `hour` of day `day` with `chrono::NaiveDateTime::format` and
/// the format `%Y-%m-%d %H:%M:%S`.
///
/// Trusted: the result is the one named by [`schedule_text`]. The day is
/// within the years 1 to 9999 and the hour below 24, where
/// `NaiveDate::from_num_days_from_ce_opt` and `NaiveDate::and_hms_opt` both
/// return a value.
#[verifier::external_body]
pub(crate) fn format_schedule(day: i32, hour: u8) -> (text: String)
    requires
        FIRST_DAY <= day <= LAST_DAY,
        hour < 24,
    ensures
        text@ == schedule_text(day as int, hour as int),
{
    let date = chrono::NaiveDate::from_num_days_from_ce_opt(day).unwrap();
    let at = date.and_hms_opt(hour as u32, 0, 0).unwrap();
    at.format("%Y-%m-%d %H:%M:%S").to_string()
}

/// Reads a time with `chrono::NaiveDateTime::parse_from_str` and the format
/// `%Y-%m-%d %H:%M:%S`, and counts its seconds with `DateTime::timestamp`.
///
/// Trusted: the result is the one named by [`timestamp_of`].
#[verifier::external_body]
pub(crate) fn parse_timestamp(text: &str) -> (secs: Option<i64>)
    ensures
        secs matches Some(s) ==> timestamp_of(text@) == Some(s as int),
        secs is None ==> timestamp_of(text@) is None,
{
    match chrono::NaiveDateTime::parse_from_str(text, "%Y-%m-%d %H:%M:%S") {
        Ok(at) => Some(at.and_utc().timestamp()),
        Err(_) => None,
    }
}

/// Reads a publish time with `chrono::DateTime::parse_from_rfc3339`, and
/// counts its seconds with `DateTime::timestamp`.
///
/// Trusted: the result is the one named by [`instant_of`].
#[verifier::external_body]
pub(crate) fn parse_instant(text: &str) -> (secs: Option<i64>)
    ensures
        secs matches Some(s) ==> instant_of(text@) == Some(s as int),
        secs is None ==> instant_of(text@) is None,
{
    match chrono::DateTime::parse_from_rfc3339(text) {
        Ok(at) => Some(at.timestamp()),
        Err(_) => None,
    }
}

} // verus!

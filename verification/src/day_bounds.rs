//! The time window a request-log report covers: either the one the caller
//! asked for, checked for order and size, or the caller's current local day.

use vstd::prelude::*;

use chrono::{DateTime, Datelike, Local, LocalResult, TimeZone};
use std::time::{SystemTime, UNIX_EPOCH};

use crate::calendar::{
    first_calendar_second, is_calendar_day, last_calendar_second, lemma_last_day_midnight,
    lemma_next_midnight, local_midnight_secs, midnight_secs, next_calendar_day, next_day,
    CalendarDay, SECS_PER_DAY,
};

verus! {

#[verifier::external_type_specification]
#[verifier::external_body]
pub struct ExSystemTime(SystemTime);

/// The longest window, in seconds, a caller may ask for.
pub const MAX_REQUESTED_DAY_RANGE_SECS: i64 = 48 * 60 * 60;

/// What a local wall-clock time maps to in the local time zone: one
/// instant, two instants in a fold, or none in a gap.
#[derive(Debug, Clone, Copy, PartialEq, Eq)]
pub enum LocalStamp {
    Single(i64),
    Ambiguous(i64, i64),
    Missing,
}

pub open spec fn min_i64(a: i64, b: i64) -> i64 {
    if a <= b {
        a
    } else {
        b
    }
}

pub open spec fn max_int(a: int, b: int) -> int {
    if a >= b {
        a
    } else {
        b
    }
}

/// Where the local day starts: the single instant of midnight, the earlier
/// one in a fold, and the current instant when midnight falls in a gap.
pub open spec fn window_start(now_ts: i64, start: LocalStamp) -> i64 {
    match start {
        LocalStamp::Single(t) => t,
        LocalStamp::Ambiguous(a, b) => min_i64(a, b),
        LocalStamp::Missing => now_ts,
    }
}

/// Where the local day ends: the single instant of the next midnight, the
/// later one in a fold, and a plain day after the start in a gap.
pub open spec fn window_end(start_ts: int, end: LocalStamp) -> int {
    match end {
        LocalStamp::Single(t) => t as int,
        LocalStamp::Ambiguous(a, b) => max_int(a as int, b as int),
        LocalStamp::Missing => start_ts + SECS_PER_DAY,
    }
}

/// The local day's window from the current instant and what this and the
/// next midnight map to; the end is never before the start.
pub fn day_bounds_from_local(now_ts: i64, start: LocalStamp, end: LocalStamp) -> (r: (i64, i64))
    requires
        end is Missing ==> window_start(now_ts, start) + SECS_PER_DAY <= i64::MAX,
    ensures
        r.0 == window_start(now_ts, start),
        r.1 == max_int(window_end(r.0 as int, end), r.0 as int),
        r.0 <= r.1,
{
    let start_ts: i64 = match start {
        LocalStamp::Single(t) => t,
        LocalStamp::Ambiguous(a, b) => if a <= b {
            a
        } else {
            b
        },
        LocalStamp::Missing => now_ts,
    };
    let end_ts: i64 = match end {
        LocalStamp::Single(t) => t,
        LocalStamp::Ambiguous(a, b) => if a >= b {
            a
        } else {
            b
        },
        LocalStamp::Missing => start_ts + SECS_PER_DAY,
    };
    if end_ts >= start_ts {
        (start_ts, end_ts)
    } else {
        (start_ts, start_ts)
    }
}

/// The reading of the system clock relative to the UNIX epoch: `Ok` with the
/// whole seconds and nanoseconds after it, `Err` with those before it.
pub type ClockReading = Result<(u64, u32), (u64, u32)>;

/// The current time of the system clock: `std::time::SystemTime::now()`.
/// Nothing is promised of it.
#[verifier::external_body]
fn system_now() -> (r: SystemTime) {
    SystemTime::now()
}

/// How far `t` lies from the UNIX epoch: `SystemTime::duration_since`, with
/// the `Duration` on either side (`SystemTimeError::duration`) given as
/// `Duration::as_secs` and `Duration::subsec_nanos`; the nanoseconds are
/// below one billion, as `subsec_nanos` documents.
#[verifier::external_body]
fn since_epoch(t: &SystemTime) -> (r: ClockReading)
    ensures
        match r {
            Ok((_, nanos)) => nanos < 1_000_000_000,
            Err((_, nanos)) => nanos < 1_000_000_000,
        },
{
    match t.duration_since(UNIX_EPOCH) {
        Ok(after) => Ok((after.as_secs(), after.subsec_nanos())),
        Err(before) => Err((before.duration().as_secs(), before.duration().subsec_nanos())),
    }
}

/// The earliest and latest clock readings at which the local day is
/// computed: two days inside chrono's calendar at either end, so that the
/// local date, its midnight and the next midnight all exist.
pub const FIRST_CLOCK_SECS: i64 = -8_334_601_056_000;

pub const LAST_CLOCK_SECS: i64 = 8_210_266_703_999;

/// The UNIX timestamp of a clock reading: whole seconds, rounded down for
/// times before the epoch, as chrono's `From<SystemTime>` counts them.
pub open spec fn reading_seconds(r: ClockReading) -> int {
    match r {
        Ok((secs, _)) => secs as int,
        Err((secs, nanos)) => if nanos == 0 {
            -(secs as int)
        } else {
            -(secs as int) - 1
        },
    }
}

pub open spec fn reading_in_range(r: ClockReading) -> bool {
    FIRST_CLOCK_SECS <= reading_seconds(r) <= LAST_CLOCK_SECS
}

/// The timestamp of a clock reading, or `None` outside
/// `FIRST_CLOCK_SECS ..= LAST_CLOCK_SECS`.
pub fn clock_timestamp(reading: ClockReading) -> (r: Option<i64>)
    ensures
        r is Some <==> reading_in_range(reading),
        r matches Some(t) ==> t == reading_seconds(reading),
{
    match reading {
        Ok((secs, _)) => {
            if secs <= 8_210_266_703_999 {
                Some(secs as i64)
            } else {
                None
            }
        },
        Err((secs, nanos)) => {
            if secs < 8_334_601_056_000 {
                let back: i64 = secs as i64;
                if nanos == 0 {
                    Some(-back)
                } else {
                    Some(-back - 1)
                }
            } else if secs == 8_334_601_056_000 && nanos == 0 {
                Some(-8_334_601_056_000)
            } else {
                None
            }
        },
    }
}

/// `off` is an offset of less than a day that puts the instant `now` on the
/// wall-clock day `day`.
pub open spec fn offset_puts_on_day(day: CalendarDay, now: int, off: int) -> bool {
    &&& -86_400 < off < 86_400
    &&& midnight_secs(day) <= now + off < midnight_secs(day) + SECS_PER_DAY
}

/// `day` is the local calendar day of the instant `now`, for some offset
/// from UTC of less than a day.
pub open spec fn is_local_day_of(day: CalendarDay, now: int) -> bool {
    is_calendar_day(day) && exists|off: int| #[trigger] offset_puts_on_day(day, now, off)
}

/// The local calendar day at the UNIX timestamp `ts`: `Local.timestamp_opt(ts,
/// 0)` (a single instant for every timestamp in chrono's range), taken apart
/// with `DateTime::date_naive`, `Datelike::year` and `Datelike::ordinal`.
/// chrono puts the instant on the day of `ts` plus the zone's offset, which
/// `FixedOffset` keeps below a day; which offset applies depends on the
/// time zone and is not stated.
#[verifier::external_body]
fn local_day_at(ts: i64) -> (r: Option<CalendarDay>)
    requires
        FIRST_CLOCK_SECS <= ts <= LAST_CLOCK_SECS,
    ensures
        r is Some,
        r matches Some(d) ==> is_local_day_of(d, ts as int),
{
    match Local.timestamp_opt(ts, 0) {
        LocalResult::Single(dt) => Some(
            CalendarDay { year: dt.date_naive().year(), ordinal: dt.date_naive().ordinal() },
        ),
        LocalResult::Ambiguous(_, _) => None,
        LocalResult::None => None,
    }
}

/// Every instant of `s` lies less than a day from the wall-clock second
/// `wall`.
pub open spec fn stamp_near(s: LocalStamp, wall: int) -> bool {
    match s {
        LocalStamp::Single(t) => wall - 86_400 < t < wall + 86_400,
        LocalStamp::Ambiguous(a, b) => wall - 86_400 < a < wall + 86_400 && wall - 86_400 < b
            < wall + 86_400,
        LocalStamp::Missing => true,
    }
}

/// Maps the wall-clock time `wall` (seconds counted as if the wall clock were
/// UTC) to instants in the machine's time zone: `DateTime::from_timestamp`
/// and `DateTime::naive_utc` give the wall-clock time, `Local.from_local_datetime`
/// maps it, and `DateTime::timestamp` gives each instant. chrono subtracts an
/// offset of less than a day (`FixedOffset`), so every instant lies less than
/// a day from `wall`; which variant comes back depends on the time zone and
/// is not stated.
#[verifier::external_body]
fn resolve_local_wall(wall: i64) -> (r: LocalStamp)
    requires
        first_calendar_second() <= wall <= last_calendar_second(),
    ensures
        stamp_near(r, wall as int),
{
    match DateTime::from_timestamp(wall, 0) {
        Some(utc) => match Local.from_local_datetime(&utc.naive_utc()) {
            LocalResult::Single(v) => LocalStamp::Single(v.timestamp()),
            LocalResult::Ambiguous(a, b) => LocalStamp::Ambiguous(a.timestamp(), b.timestamp()),
            LocalResult::None => LocalStamp::Missing,
        },
        None => LocalStamp::Missing,
    }
}

pub open spec fn clock_unreadable_text() -> Seq<char> {
    "read local clock failed"@
}

/// `b` is the window of `day`, the local day of the instant `now`: its start
/// is built from what `day`'s midnight maps to, its end from what the next
/// day's midnight maps to, by the rule of `day_bounds_from_local`.
pub open spec fn is_local_day_window(b: (i64, i64), now: i64, day: CalendarDay, start: LocalStamp, end: LocalStamp) -> bool {
    &&& is_local_day_of(day, now as int)
    &&& next_calendar_day(day) is Some
    &&& stamp_near(start, midnight_secs(day))
    &&& stamp_near(end, midnight_secs(next_calendar_day(day)->Some_0))
    &&& b.0 == window_start(now, start)
    &&& b.1 == max_int(window_end(b.0 as int, end), b.0 as int)
}

/// The outcome of computing the local day from the clock reading `reading`:
/// the window of the reading's local day when the reading lies within
/// `FIRST_CLOCK_SECS ..= LAST_CLOCK_SECS`, and the clock refusal otherwise.
pub open spec fn local_day_result(reading: ClockReading, r: Result<(i64, i64), String>) -> bool {
    &&& r is Ok <==> reading_in_range(reading)
    &&& match r {
        Ok(b) => b.0 <= b.1 && exists|day: CalendarDay, start: LocalStamp, end: LocalStamp|
            #[trigger] is_local_day_window(b, reading_seconds(reading) as i64, day, start, end),
        Err(e) => e@ == clock_unreadable_text(),
    }
}

/// What every outcome of reading the local day satisfies: it is the outcome
/// for some reading of the system clock.
pub open spec fn local_day_outcome(r: Result<(i64, i64), String>) -> bool {
    exists|reading: ClockReading| #[trigger] local_day_result(reading, r)
}

/// The window of the local day of the clock reading `reading`, from that
/// day's midnight to the next one.
pub fn local_day_bounds_from_reading(reading: ClockReading) -> (r: Result<(i64, i64), String>)
    ensures
        local_day_result(reading, r),
{
    let now_ts: i64 = match clock_timestamp(reading) {
        Some(t) => t,
        None => {
            return Err(String::from_str("read local clock failed"));
        },
    };
    let today: CalendarDay = match local_day_at(now_ts) {
        Some(d) => d,
        None => {
            return Err(String::from_str("read local clock failed"));
        },
    };
    let ghost off: int = choose|off: int| offset_puts_on_day(today, now_ts as int, off);
    proof {
        assert(offset_puts_on_day(today, now_ts as int, off));
        if next_calendar_day(today) is None {
            lemma_last_day_midnight(today);
        }
    }
    let tomorrow: CalendarDay = match next_day(today) {
        Some(d) => d,
        None => {
            return Err(String::from_str("read local clock failed"));
        },
    };
    proof {
        lemma_next_midnight(today);
    }
    let start_wall: i64 = local_midnight_secs(today);
    let end_wall: i64 = local_midnight_secs(tomorrow);
    let start: LocalStamp = resolve_local_wall(start_wall);
    let end: LocalStamp = resolve_local_wall(end_wall);
    let bounds: (i64, i64) = day_bounds_from_local(now_ts, start, end);
    let r: Result<(i64, i64), String> = Ok(bounds);
    assert(is_local_day_window(r->Ok_0, reading_seconds(reading) as i64, today, start, end));
    r
}

/// The window of the caller's current local day, from this midnight to the
/// next; the start never comes after the end. The system clock is read
/// once; the window is refused only for a reading within two days of either
/// end of chrono's calendar.
pub fn local_day_bounds_ts() -> (r: Result<(i64, i64), String>)
    ensures
        local_day_outcome(r),
{
    let now: SystemTime = system_now();
    let reading: ClockReading = since_epoch(&now);
    let r: Result<(i64, i64), String> = local_day_bounds_from_reading(reading);
    assert(local_day_result(reading, r));
    r
}

pub open spec fn end_not_after_start_text() -> Seq<char> {
    "dayEndTs must be greater than dayStartTs"@
}

pub open spec fn range_too_large_text() -> Seq<char> {
    "requested day range is too large"@
}

pub open spec fn bounds_not_paired_text() -> Seq<char> {
    "dayStartTs and dayEndTs must be provided together"@
}

/// The outcome for a window the caller asked for: refused when it is empty
/// or reversed, refused when longer than `MAX_REQUESTED_DAY_RANGE_SECS`
/// (by the exact difference), granted otherwise.
pub open spec fn requested_bounds(start: i64, end: i64) -> Result<(i64, i64), Seq<char>> {
    if end <= start {
        Err(end_not_after_start_text())
    } else if end - start > MAX_REQUESTED_DAY_RANGE_SECS {
        Err(range_too_large_text())
    } else {
        Ok((start, end))
    }
}

pub open spec fn bounds_view(r: Result<(i64, i64), String>) -> Result<(i64, i64), Seq<char>> {
    match r {
        Ok(b) => Ok(b),
        Err(e) => Err(e@),
    }
}

/// The window a report covers. Both bounds given: the requested window,
/// checked; neither given: the current local day; one without the other:
/// refused.
pub fn resolve_day_bounds_ts(day_start_ts: Option<i64>, day_end_ts: Option<i64>) -> (r: Result<(i64, i64), String>)
    ensures
        match (day_start_ts, day_end_ts) {
            (Some(start), Some(end)) => bounds_view(r) == requested_bounds(start, end),
            (None, None) => local_day_outcome(r),
            _ => bounds_view(r) == Err::<(i64, i64), Seq<char>>(bounds_not_paired_text()),
        },
{
    match (day_start_ts, day_end_ts) {
        (Some(start), Some(end)) => {
            if end <= start {
                return Err(String::from_str("dayEndTs must be greater than dayStartTs"));
            }
            let too_large: bool = match end.checked_sub(start) {
                Some(span) => span > MAX_REQUESTED_DAY_RANGE_SECS,
                None => true,
            };
            if too_large {
                return Err(String::from_str("requested day range is too large"));
            }
            Ok((start, end))
        },
        (None, None) => local_day_bounds_ts(),
        _ => Err(String::from_str("dayStartTs and dayEndTs must be provided together")),
    }
}

/// Every window granted for a request is non-empty, ordered, and no longer
/// than `MAX_REQUESTED_DAY_RANGE_SECS`.
pub proof fn lemma_requested_window_is_bounded(start: i64, end: i64)
    ensures
        requested_bounds(start, end) matches Ok(b) ==> b.0 == start && b.1 == end && b.0 < b.1
            && b.1 - b.0 <= MAX_REQUESTED_DAY_RANGE_SECS,
        requested_bounds(start, end) is Ok <==> start < end && end - start
            <= MAX_REQUESTED_DAY_RANGE_SECS,
{
}

} // verus!

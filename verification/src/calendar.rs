//! Days of the proleptic Gregorian calendar as chrono counts them, the day
//! after a day, and the UNIX second at which a day's wall clock reads
//! midnight.

use vstd::prelude::*;
use vstd::arithmetic::div_mod::{lemma_fundamental_div_mod, lemma_fundamental_div_mod_converse};
use vstd::arithmetic::mul::lemma_mul_is_distributive_sub;

verus! {

/// A calendar day: a year of the proleptic Gregorian calendar (year 0 is
/// 1 BCE) and the day of that year, counted from 1.
#[derive(Debug, Clone, Copy, PartialEq, Eq)]
pub struct CalendarDay {
    pub year: i32,
    pub ordinal: u32,
}

/// The first and last years of chrono's calendar.
pub const MIN_CALENDAR_YEAR: i32 = -262143;

pub const MAX_CALENDAR_YEAR: i32 = 262142;

/// Seconds in a day of wall-clock time.
pub const SECS_PER_DAY: i64 = 24 * 60 * 60;

pub open spec fn is_leap_year(year: int) -> bool {
    year % 4 == 0 && (year % 100 != 0 || year % 400 == 0)
}

pub open spec fn days_in_year(year: int) -> int {
    if is_leap_year(year) {
        366
    } else {
        365
    }
}

/// A day that exists in chrono's calendar.
pub open spec fn is_calendar_day(d: CalendarDay) -> bool {
    &&& MIN_CALENDAR_YEAR <= d.year <= MAX_CALENDAR_YEAR
    &&& 1 <= d.ordinal <= days_in_year(d.year as int)
}

/// The day after `d`, `None` after chrono's last day.
pub open spec fn next_calendar_day(d: CalendarDay) -> Option<CalendarDay> {
    if d.ordinal < days_in_year(d.year as int) {
        Some(CalendarDay { year: d.year, ordinal: (d.ordinal + 1) as u32 })
    } else if d.year < MAX_CALENDAR_YEAR {
        Some(CalendarDay { year: (d.year + 1) as i32, ordinal: 1 })
    } else {
        None
    }
}

/// The days of the years before `year`, counted from 1 January of year 1.
pub open spec fn days_before_year(year: int) -> int {
    let n = year - 1;
    365 * n + n / 4 - n / 100 + n / 400
}

/// The number of days from 1 January 1970 to `d`.
pub open spec fn epoch_day(d: CalendarDay) -> int {
    days_before_year(d.year as int) + d.ordinal - 719_163
}

/// The UNIX second at which the wall clock reads midnight at the start of
/// `d`, counting the wall clock as if it were UTC.
pub open spec fn midnight_secs(d: CalendarDay) -> int {
    epoch_day(d) * SECS_PER_DAY
}

/// Wall-clock midnight of chrono's first day.
pub open spec fn first_calendar_second() -> int {
    -8_334_601_228_800
}

/// Wall-clock 23:59:59 of chrono's last day.
pub open spec fn last_calendar_second() -> int {
    8_210_266_876_799
}

proof fn lemma_div_shift(m: int, k: int, c: int)
    requires
        k > 0,
    ensures
        (m - k * c) / k == m / k - c,
        (m - k * c) % k == m % k,
{
    lemma_fundamental_div_mod(m, k);
    lemma_mul_is_distributive_sub(k, m / k, c);
    assert(m - k * c == (m / k - c) * k + m % k) by (nonlinear_arith)
        requires
            m == k * (m / k) + m % k,
            k * (m / k - c) == k * (m / k) - k * c,
    ;
    lemma_fundamental_div_mod_converse(m - k * c, k, m / k - c, m % k);
}

proof fn lemma_div_step(y: int, k: int)
    requires
        k > 0,
    ensures
        y / k - (y - 1) / k == (if y % k == 0 {
            1int
        } else {
            0int
        }),
{
    lemma_fundamental_div_mod(y, k);
    let q = y / k;
    let r = y % k;
    assert(y == q * k + r) by (nonlinear_arith)
        requires
            y == k * q + r,
    ;
    if r > 0 {
        lemma_fundamental_div_mod_converse(y - 1, k, q, r - 1);
    } else {
        assert(y - 1 == (q - 1) * k + (k - 1)) by (nonlinear_arith)
            requires
                y == q * k + r,
                r == 0,
        ;
        lemma_fundamental_div_mod_converse(y - 1, k, q - 1, k - 1);
    }
}

proof fn lemma_divisible_chain(y: int)
    ensures
        y % 400 == 0 ==> y % 100 == 0,
        y % 100 == 0 ==> y % 4 == 0,
{
    if y % 400 == 0 {
        lemma_fundamental_div_mod(y, 400);
        lemma_fundamental_div_mod_converse(y, 100, 4 * (y / 400), 0);
    }
    if y % 100 == 0 {
        lemma_fundamental_div_mod(y, 100);
        lemma_fundamental_div_mod_converse(y, 4, 25 * (y / 100), 0);
    }
}

/// A year's days follow on from those of the years before it.
pub proof fn lemma_days_before_next_year(year: int)
    ensures
        days_before_year(year + 1) == days_before_year(year) + days_in_year(year),
{
    lemma_div_step(year, 4);
    lemma_div_step(year, 100);
    lemma_div_step(year, 400);
    lemma_divisible_chain(year);
}

/// The next day's midnight comes one day of wall-clock time later.
pub proof fn lemma_next_midnight(d: CalendarDay)
    requires
        is_calendar_day(d),
        next_calendar_day(d) is Some,
    ensures
        is_calendar_day(next_calendar_day(d)->Some_0),
        midnight_secs(next_calendar_day(d)->Some_0) == midnight_secs(d) + SECS_PER_DAY,
{
    let n = next_calendar_day(d)->Some_0;
    if d.ordinal >= days_in_year(d.year as int) {
        lemma_days_before_next_year(d.year as int);
        assert(n.year as int == d.year + 1);
        assert(n.ordinal == 1);
        assert(d.ordinal as int == days_in_year(d.year as int));
        assert(epoch_day(n) == epoch_day(d) + 1);
    } else {
        assert(epoch_day(n) == epoch_day(d) + 1);
    }
    assert(midnight_secs(n) == midnight_secs(d) + SECS_PER_DAY) by (nonlinear_arith)
        requires
            epoch_day(n) == epoch_day(d) + 1,
            midnight_secs(n) == epoch_day(n) * SECS_PER_DAY,
            midnight_secs(d) == epoch_day(d) * SECS_PER_DAY,
    ;
}

/// Only chrono's last day has no day after it, and its midnight falls one
/// day before the calendar's last second.
pub proof fn lemma_last_day_midnight(d: CalendarDay)
    requires
        is_calendar_day(d),
        next_calendar_day(d) is None,
    ensures
        midnight_secs(d) == last_calendar_second() - 86_399,
{
    assert(262142int % 4 == 2);
    assert(d.year == 262142 && d.ordinal == 365);
    assert(262_141int / 4 == 65_535);
    assert(262_141int / 100 == 2_621);
    assert(262_141int / 400 == 655);
    assert(days_before_year(262142) == 95_745_034);
    assert(epoch_day(d) == 95_026_236);
    assert(midnight_secs(d) == 95_026_236 * 86_400) by (nonlinear_arith)
        requires
            epoch_day(d) == 95_026_236,
            midnight_secs(d) == epoch_day(d) * SECS_PER_DAY,
            SECS_PER_DAY == 86_400,
    ;
}

/// Whether `year` is a leap year.
pub fn is_leap_year_number(year: i32) -> (b: bool)
    ensures
        b == is_leap_year(year as int),
{
    let shifted: u64 = (year as i64 + 2_147_484_000) as u64;
    proof {
        lemma_div_shift(shifted as int, 4, 536_871_000);
        lemma_div_shift(shifted as int, 100, 21_474_840);
        lemma_div_shift(shifted as int, 400, 5_368_710);
    }
    shifted % 4 == 0 && (shifted % 100 != 0 || shifted % 400 == 0)
}

/// The day after `d`, `None` after chrono's last day.
pub fn next_day(d: CalendarDay) -> (r: Option<CalendarDay>)
    requires
        is_calendar_day(d),
    ensures
        r == next_calendar_day(d),
{
    let days: u32 = if is_leap_year_number(d.year) {
        366
    } else {
        365
    };
    if d.ordinal < days {
        Some(CalendarDay { year: d.year, ordinal: d.ordinal + 1 })
    } else if d.year < MAX_CALENDAR_YEAR {
        Some(CalendarDay { year: d.year + 1, ordinal: 1 })
    } else {
        None
    }
}

/// The UNIX second at which the wall clock reads midnight at the start of
/// `day`.
pub fn local_midnight_secs(day: CalendarDay) -> (s: i64)
    requires
        is_calendar_day(day),
    ensures
        s == midnight_secs(day),
{
    let n: i64 = day.year as i64 - 1;
    let shifted: u64 = (n + 262_400) as u64;
    proof {
        lemma_div_shift(shifted as int, 4, 65_600);
        lemma_div_shift(shifted as int, 100, 2_624);
        lemma_div_shift(shifted as int, 400, 656);
        assert(n as int == shifted as int - 262_400);
    }
    let by4: i64 = (shifted / 4) as i64 - 65_600;
    let by100: i64 = (shifted / 100) as i64 - 2_624;
    let by400: i64 = (shifted / 400) as i64 - 656;
    let days: i64 = 365 * n + by4 - by100 + by400 + day.ordinal as i64 - 719_163;
    assert(-200_000_000 <= days <= 200_000_000) by {
        assert(shifted <= 524_541);
        assert(shifted / 4 <= shifted);
        assert(shifted / 100 <= shifted);
        assert(shifted / 400 <= shifted);
    }
    days * 86_400
}

} // verus!

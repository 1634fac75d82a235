//! Calendar dates, wall-clock times and instants in the service's fixed
//! timezone (UTC+9, no daylight saving), with the arithmetic the status
//! logic needs: weekday computation, the n-th weekday of a month, and
//! rolling a close time past midnight onto the next day.

use vstd::prelude::*;

verus! {

/// A calendar date in the proleptic Gregorian calendar.
#[derive(Clone, Copy, PartialEq, Eq, Structural, Debug)]
pub struct Date {
    pub year: u32,
    pub month: u32,
    pub day: u32,
}

/// A wall-clock time of day.
#[derive(Clone, Copy, PartialEq, Eq, Structural, Debug)]
pub struct ClockTime {
    pub hour: u32,
    pub minute: u32,
    pub second: u32,
}

/// A local date and time in the fixed timezone.
#[derive(Clone, Copy, PartialEq, Eq, Structural, Debug)]
pub struct Instant {
    pub date: Date,
    pub time: ClockTime,
}

/// Daily operating hours. Both instants lie on the same calendar day,
/// except that a close time expressed with hour >= 24 lies on the
/// following day.
#[derive(Clone, Copy, PartialEq, Eq, Structural, Debug)]
pub struct TimeWindow {
    pub open: Instant,
    pub close: Instant,
}

pub open spec fn is_leap_year(y: int) -> bool {
    (y % 4 == 0 && y % 100 != 0) || y % 400 == 0
}

pub open spec fn spec_days_in_month(y: int, m: int) -> int {
    if m == 2 {
        if is_leap_year(y) {
            29
        } else {
            28
        }
    } else if m == 4 || m == 6 || m == 9 || m == 11 {
        30
    } else {
        31
    }
}

pub open spec fn valid_date(d: Date) -> bool {
    &&& 1 <= d.year <= 9999
    &&& 1 <= d.month <= 12
    &&& 1 <= d.day <= spec_days_in_month(d.year as int, d.month as int)
}

pub open spec fn valid_time(t: ClockTime) -> bool {
    t.hour < 24 && t.minute < 60 && t.second < 60
}

pub open spec fn valid_instant(i: Instant) -> bool {
    valid_date(i.date) && valid_time(i.time)
}

/// The date as the integer YYYYMMDD; on valid dates this ordering is
/// chronological.
pub open spec fn yyyymmdd(d: Date) -> int {
    d.year * 10000 + d.month * 100 + d.day
}

pub open spec fn second_of_day(t: ClockTime) -> int {
    t.hour * 3600 + t.minute * 60 + t.second
}

/// A single integer that orders valid instants chronologically.
pub open spec fn instant_key(i: Instant) -> int {
    yyyymmdd(i.date) * 100000 + second_of_day(i.time)
}

/// Days since 0000-03-01, by 400-year-era decomposition: the month is
/// shifted so each year runs March..February and leap days fall last.
pub open spec fn day_number(d: Date) -> int {
    let y: int = if d.month <= 2 { d.year - 1 } else { d.year as int };
    let era: int = y / 400;
    let yoe: int = y % 400;
    let mp: int = if d.month > 2 { d.month - 3 } else { d.month + 9 };
    let doy: int = (153 * mp + 2) / 5 + d.day - 1;
    let doe: int = yoe * 365 + yoe / 4 - yoe / 100 + doy;
    era * 146097 + doe
}

/// Index of the weekday of a date, Monday = 0 .. Sunday = 6.
pub open spec fn weekday_index(d: Date) -> int {
    (day_number(d) + 2) % 7
}

pub fn days_in_month(year: u32, month: u32) -> (r: u32)
    requires
        1 <= month <= 12,
    ensures
        r == spec_days_in_month(year as int, month as int),
{
    if month == 2 {
        if (year % 4 == 0 && year % 100 != 0) || year % 400 == 0 {
            29
        } else {
            28
        }
    } else if month == 4 || month == 6 || month == 9 || month == 11 {
        30
    } else {
        31
    }
}

pub fn weekday_of(d: Date) -> (r: u32)
    requires
        valid_date(d),
    ensures
        r == weekday_index(d),
        r < 7,
{
    let y: u32 = if d.month <= 2 { d.year - 1 } else { d.year };
    let era: u32 = y / 400;
    let yoe: u32 = y % 400;
    let mp: u32 = if d.month > 2 { d.month - 3 } else { d.month + 9 };
    let doy: u32 = (153 * mp + 2) / 5 + d.day - 1;
    let doe: u32 = yoe * 365 + yoe / 4 - yoe / 100 + doy;
    let dn: u32 = era * 146097 + doe;
    (dn + 2) % 7
}

pub open spec fn spec_next_day(d: Date) -> Date {
    if d.day < spec_days_in_month(d.year as int, d.month as int) {
        Date { year: d.year, month: d.month, day: (d.day + 1) as u32 }
    } else if d.month < 12 {
        Date { year: d.year, month: (d.month + 1) as u32, day: 1 }
    } else {
        Date { year: (d.year + 1) as u32, month: 1, day: 1 }
    }
}

/// The last representable date, past which `next_day` has no successor.
pub open spec fn is_max_date(d: Date) -> bool {
    d.year == 9999 && d.month == 12 && d.day == 31
}

pub fn next_day(d: Date) -> (r: Date)
    requires
        valid_date(d),
        !is_max_date(d),
    ensures
        r == spec_next_day(d),
        valid_date(r),
{
    let dim: u32 = days_in_month(d.year, d.month);
    if d.day < dim {
        Date { year: d.year, month: d.month, day: d.day + 1 }
    } else if d.month < 12 {
        Date { year: d.year, month: d.month + 1, day: 1 }
    } else {
        Date { year: d.year + 1, month: 1, day: 1 }
    }
}

/// The day of the month of the n-th occurrence of the weekday with
/// index `wd`: counted from the weekday of the first of the month.
pub open spec fn spec_nth_weekday_day(year: u32, month: u32, wd: int, n: int) -> int {
    1 + (wd + 7 - weekday_index(Date { year, month, day: 1 })) % 7 + 7 * (n - 1)
}

/// The n-th occurrence (n in 1..=4) of a weekday always exists: its day
/// lies in the n-th seven-day band of the month, and its weekday is the
/// requested one.
pub proof fn lemma_nth_weekday(year: u32, month: u32, wd: int, n: int)
    requires
        1 <= year <= 9999,
        1 <= month <= 12,
        0 <= wd < 7,
        1 <= n <= 4,
    ensures
        ({
            let day: int = spec_nth_weekday_day(year, month, wd, n);
            let r = Date { year, month, day: day as u32 };
            &&& 7 * (n - 1) < day <= 7 * n
            &&& valid_date(r)
            &&& weekday_index(r) == wd
        }),
{
    let first: Date = Date { year, month, day: 1 };
    let w1: int = weekday_index(first);
    vstd::arithmetic::div_mod::lemma_mod_bound(day_number(first) + 2, 7);
    let day: int = spec_nth_weekday_day(year, month, wd, n);
    vstd::arithmetic::div_mod::lemma_mod_bound(wd + 7 - w1, 7);
    let r = Date { year, month, day: day as u32 };
    lemma_weekday_of_day(year, month, day);
    let a: int = day_number(first) + 2;
    let t: int = (wd + 7 - w1) % 7;
    assert(day_number(r) == day_number(first) + day - 1);
    vstd::arithmetic::div_mod::lemma_mod_multiples_vanish(n - 1, a + t, 7);
    assert((a + t + 7 * (n - 1)) % 7 == (a + t) % 7);
    vstd::arithmetic::div_mod::lemma_add_mod_noop(a, t, 7);
    assert(t % 7 == t) by {
        vstd::arithmetic::div_mod::lemma_mod_twice(wd + 7 - w1, 7);
    }
    assert((a + t) % 7 == (w1 + t) % 7);
    vstd::arithmetic::div_mod::lemma_add_mod_noop(w1, wd + 7 - w1, 7);
    assert((w1 + t) % 7 == (wd + 7) % 7);
    vstd::arithmetic::div_mod::lemma_mod_multiples_vanish(1, wd, 7);
    assert((wd + 7) % 7 == wd);
}

/// The date of the n-th occurrence (n in 1..=4) of the weekday with
/// index `wd` in the given month.
pub fn nth_weekday_of_month(year: u32, month: u32, wd: u32, n: u32) -> (r: Date)
    requires
        1 <= year <= 9999,
        1 <= month <= 12,
        wd < 7,
        1 <= n <= 4,
    ensures
        valid_date(r),
        r.year == year,
        r.month == month,
        r.day == spec_nth_weekday_day(year, month, wd as int, n as int),
        weekday_index(r) == wd,
        7 * (n - 1) < r.day <= 7 * n,
{
    let first: Date = Date { year, month, day: 1 };
    let w1: u32 = weekday_of(first);
    let day: u32 = 1 + (wd + 7 - w1) % 7 + 7 * (n - 1);
    proof {
        lemma_nth_weekday(year, month, wd as int, n as int);
    }
    Date { year, month, day }
}

/// Weekday indices shift by one for each following day of a month:
/// the day-number formula is linear in the day of the month.
proof fn lemma_weekday_of_day(year: u32, month: u32, day: int)
    requires
        1 <= year <= 9999,
        1 <= month <= 12,
        1 <= day <= 31,
    ensures
        day_number(Date { year, month, day: day as u32 }) == day_number(
            Date { year, month, day: 1 },
        ) + day - 1,
{
}

pub fn yyyymmdd_u32(d: &Date) -> (r: u32)
    requires
        valid_date(*d),
    ensures
        r == yyyymmdd(*d),
{
    d.year * 10000 + d.month * 100 + d.day
}

pub fn instant_key_u64(i: &Instant) -> (r: u64)
    requires
        valid_instant(*i),
    ensures
        r == instant_key(*i),
{
    let dk: u64 = (i.date.year as u64) * 10000 + (i.date.month as u64) * 100 + (i.date.day as u64);
    dk * 100000 + (i.time.hour as u64) * 3600 + (i.time.minute as u64) * 60 + (i.time.second as u64)
}

pub fn instant_lt(a: &Instant, b: &Instant) -> (r: bool)
    requires
        valid_instant(*a),
        valid_instant(*b),
    ensures
        r == (instant_key(*a) < instant_key(*b)),
{
    instant_key_u64(a) < instant_key_u64(b)
}

/// The operating window for the current day. A close hour >= 24 stands
/// for a time past midnight: it yields an instant on the following
/// calendar day with the hour reduced by 24.
pub open spec fn spec_make_window(today: Date, open_h: int, open_m: int, close_h: int, close_m:
    int) -> TimeWindow {
    TimeWindow {
        open: Instant {
            date: today,
            time: ClockTime { hour: open_h as u32, minute: open_m as u32, second: 0 },
        },
        close: if close_h <= 23 {
            Instant {
                date: today,
                time: ClockTime { hour: close_h as u32, minute: close_m as u32, second: 0 },
            }
        } else {
            Instant {
                date: spec_next_day(today),
                time: ClockTime { hour: (close_h - 24) as u32, minute: close_m as u32, second: 0 },
            }
        },
    }
}

pub fn make_window(today: Date, open_h: u32, open_m: u32, close_h: u32, close_m: u32) -> (r:
    TimeWindow)
    requires
        valid_date(today),
        open_h < 24,
        open_m < 60,
        close_h < 48,
        close_m < 60,
        close_h > 23 ==> !is_max_date(today),
    ensures
        r == spec_make_window(today, open_h as int, open_m as int, close_h as int, close_m as int),
        valid_instant(r.open),
        valid_instant(r.close),
{
    let open = Instant { date: today, time: ClockTime { hour: open_h, minute: open_m, second: 0 } };
    let close = if close_h <= 23 {
        Instant { date: today, time: ClockTime { hour: close_h, minute: close_m, second: 0 } }
    } else {
        Instant {
            date: next_day(today),
            time: ClockTime { hour: close_h - 24, minute: close_m, second: 0 },
        }
    };
    TimeWindow { open, close }
}

} // verus!

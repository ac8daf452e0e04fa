//! The proleptic-Gregorian calendar model: plain-value date, time-of-day and
//! datetime records, their validity predicates, and the day-number arithmetic
//! that the unit-update engine is built on.
//!
//! Every date the library handles lies between year 0 and year 9999
//! inclusive. Day numbers count days since 0000-01-01; instants count seconds
//! since 0000-01-01 00:00:00.

use vstd::prelude::*;

verus! {

use vstd::arithmetic::div_mod::lemma_fundamental_div_mod;
use vstd::math::abs;
use vstd::math::min;

/// Last representable year.
pub const MAX_YEAR: u32 = 9999;

/// A calendar date. Invariant (see [`CalendarDate::wf`]): a valid
/// proleptic-Gregorian date with `0 <= year <= 9999`.
#[derive(Clone, Copy, Debug, PartialEq, Eq, Structural)]
pub struct CalendarDate {
    pub year: u32,
    pub month: u32,
    pub day: u32,
}

/// A wall-clock time of day, whole seconds only.
#[derive(Clone, Copy, Debug, PartialEq, Eq, Structural)]
pub struct ClockTime {
    pub hour: u32,
    pub minute: u32,
    pub second: u32,
}

/// A calendar date combined with a time of day.
#[derive(Clone, Copy, Debug, PartialEq, Eq, Structural)]
pub struct CalendarDateTime {
    pub date: CalendarDate,
    pub time: ClockTime,
}

/// Gregorian leap-year rule: divisible by 4, except centuries, except
/// centuries divisible by 400.
pub open spec fn is_leap_year(y: int) -> bool {
    (y % 4 == 0 && y % 100 != 0) || y % 400 == 0
}

pub open spec fn spec_days_in_month(y: int, m: int) -> int {
    if m == 2 {
        if is_leap_year(y) {
            29
        } else {
            28
        }
    } else if m == 4 || m == 6 || m == 9 || m == 11 {
        30
    } else {
        31
    }
}

pub open spec fn spec_days_in_year(y: int) -> int {
    if is_leap_year(y) {
        366
    } else {
        365
    }
}

/// Days from 0000-01-01 up to (excluding) the first day of year `y`.
pub open spec fn days_before_year(y: int) -> int
    decreases y,
{
    if y <= 0 {
        0
    } else {
        days_before_year(y - 1) + spec_days_in_year(y - 1)
    }
}

/// Days from the first day of year `y` up to (excluding) the first day of
/// month `m` of that year.
pub open spec fn days_before_month(y: int, m: int) -> int
    decreases m,
{
    if m <= 1 {
        0
    } else {
        days_before_month(y, m - 1) + spec_days_in_month(y, m - 1)
    }
}

/// The rank of a day in the supported range: days since 0000-01-01.
pub open spec fn spec_day_number(y: int, m: int, d: int) -> int {
    days_before_year(y) + days_before_month(y, m) + (d - 1)
}

pub open spec fn valid_ymd(y: int, m: int, d: int) -> bool {
    0 <= y <= MAX_YEAR && 1 <= m <= 12 && 1 <= d <= spec_days_in_month(y, m)
}

pub open spec fn valid_hms(h: int, mi: int, s: int) -> bool {
    0 <= h <= 23 && 0 <= mi <= 59 && 0 <= s <= 59
}

impl CalendarDate {
    pub open spec fn wf(&self) -> bool {
        valid_ymd(self.year as int, self.month as int, self.day as int)
    }

    pub open spec fn spec_day_number(&self) -> int {
        spec_day_number(self.year as int, self.month as int, self.day as int)
    }

    /// Months since 0000-01: the scale on which month/year arithmetic acts.
    pub open spec fn month_index(&self) -> int {
        self.year * 12 + self.month - 1
    }
}

impl ClockTime {
    pub open spec fn wf(&self) -> bool {
        valid_hms(self.hour as int, self.minute as int, self.second as int)
    }

    /// Seconds since midnight.
    pub open spec fn spec_seconds_of_day(&self) -> int {
        self.hour * 3600 + self.minute * 60 + self.second
    }
}

impl CalendarDateTime {
    pub open spec fn wf(&self) -> bool {
        self.date.wf() && self.time.wf()
    }

    /// Seconds since 0000-01-01 00:00:00.
    pub open spec fn spec_instant(&self) -> int {
        self.date.spec_day_number() * 86400 + self.time.spec_seconds_of_day()
    }
}

/// The day number of the last representable day, 9999-12-31.
pub open spec fn max_day_number() -> int {
    spec_day_number(MAX_YEAR as int, 12, 31)
}

/// A year holds as many days as its twelve months together.
pub proof fn lemma_year_is_twelve_months(y: int)
    ensures
        days_before_month(y, 13) == spec_days_in_year(y),
{
    reveal_with_fuel(days_before_month, 13);
}

/// Sums of month lengths are non-negative.
pub proof fn lemma_days_before_month_nonneg(y: int, m: int)
    requires
        1 <= m <= 13,
    ensures
        0 <= days_before_month(y, m),
    decreases m,
{
    if m > 1 {
        lemma_days_before_month_nonneg(y, m - 1);
    }
}

/// Every day of a valid date lies strictly inside its year.
pub proof fn lemma_day_number_within_year(y: int, m: int, d: int)
    requires
        1 <= m <= 12,
        1 <= d <= spec_days_in_month(y, m),
    ensures
        0 <= days_before_month(y, m) + (d - 1) < spec_days_in_year(y),
    decreases 12 - m,
{
    lemma_days_before_month_nonneg(y, m);
    if m == 12 {
        lemma_year_is_twelve_months(y);
        assert(days_before_month(y, 13) == days_before_month(y, 12) + spec_days_in_month(y, 12));
    } else {
        lemma_day_number_within_year(y, m + 1, 1);
        assert(days_before_month(y, m + 1) == days_before_month(y, m) + spec_days_in_month(y, m));
    }
}

/// `days_before_year` grows between 365 and 366 days per year.
pub proof fn lemma_days_before_year_bounds(y: int)
    requires
        y >= 0,
    ensures
        365 * y <= days_before_year(y) <= 366 * y,
    decreases y,
{
    if y > 0 {
        lemma_days_before_year_bounds(y - 1);
    }
}

/// Day numbers order dates: a date of an earlier year has a smaller day
/// number than any date of a later year.
pub proof fn lemma_day_number_year_monotone(y1: int, y2: int)
    requires
        0 <= y1 < y2,
    ensures
        days_before_year(y1) + spec_days_in_year(y1) <= days_before_year(y2),
    decreases y2 - y1,
{
    if y1 + 1 < y2 {
        lemma_day_number_year_monotone(y1 + 1, y2);
    }
}

/// A concrete bound on the day-number range, so that day numbers fit `u32`.
pub proof fn lemma_max_day_number_bound()
    ensures
        0 <= max_day_number() < 3660000,
{
    lemma_days_before_year_bounds(MAX_YEAR as int);
    lemma_day_number_within_year(MAX_YEAR as int, 12, 31);
}

pub fn days_in_month(y: u32, m: u32) -> (r: u32)
    requires
        1 <= m <= 12,
    ensures
        r == spec_days_in_month(y as int, m as int),
{
    if m == 2 {
        if (y % 4 == 0 && y % 100 != 0) || y % 400 == 0 {
            29
        } else {
            28
        }
    } else if m == 4 || m == 6 || m == 9 || m == 11 {
        30
    } else {
        31
    }
}

pub fn days_in_year(y: u32) -> (r: u32)
    ensures
        r == spec_days_in_year(y as int),
{
    if (y % 4 == 0 && y % 100 != 0) || y % 400 == 0 {
        366
    } else {
        365
    }
}

/// Day number of a valid date: days since 0000-01-01.
pub fn day_number_of(y: u32, m: u32, d: u32) -> (r: u32)
    requires
        valid_ymd(y as int, m as int, d as int),
    ensures
        r == spec_day_number(y as int, m as int, d as int),
        r <= max_day_number(),
{
    let mut acc: u32 = 0;
    let mut yy: u32 = 0;
    while yy < y
        invariant
            yy <= y <= MAX_YEAR,
            acc == days_before_year(yy as int),
            acc <= 366 * yy,
        decreases y - yy,
    {
        proof {
            lemma_days_before_year_bounds(yy as int);
        }
        acc = acc + days_in_year(yy);
        yy = yy + 1;
    }
    let mut mm: u32 = 1;
    while mm < m
        invariant
            1 <= mm <= m <= 12,
            valid_ymd(y as int, m as int, d as int),
            acc == days_before_year(y as int) + days_before_month(y as int, mm as int),
            acc <= 366 * y + 31 * mm,
        decreases m - mm,
    {
        acc = acc + days_in_month(y, mm);
        mm = mm + 1;
    }
    proof {
        lemma_day_number_within_year(y as int, m as int, d as int);
        lemma_days_before_year_bounds(y as int);
        lemma_year_is_twelve_months(y as int);
        assert(days_before_month(y as int, 13) == days_before_month(y as int, 12)
            + spec_days_in_month(y as int, 12));
        if (y as int) < MAX_YEAR {
            lemma_day_number_year_monotone(y as int, MAX_YEAR as int);
            lemma_day_number_within_year(MAX_YEAR as int, 12, 31);
        }
    }
    acc + (d - 1)
}

/// Inverse of [`day_number_of`]: the unique valid date with the given day
/// number.
pub fn civil_of_day_number(n: u32) -> (r: CalendarDate)
    requires
        0 <= n <= max_day_number(),
    ensures
        r.wf(),
        r.spec_day_number() == n,
{
    let mut y: u32 = 0;
    let mut rem: u32 = n;
    loop
        invariant
            y <= MAX_YEAR,
            rem == n - days_before_year(y as int),
            0 <= rem,
            n <= max_day_number(),
        ensures
            y <= MAX_YEAR,
            rem == n - days_before_year(y as int),
            rem < spec_days_in_year(y as int),
        decreases MAX_YEAR - y,
    {
        let dy = days_in_year(y);
        if rem < dy {
            break;
        }
        proof {
            if y == MAX_YEAR {
                lemma_year_is_twelve_months(MAX_YEAR as int);
            }
        }
        rem = rem - dy;
        y = y + 1;
    }
    let mut m: u32 = 1;
    loop
        invariant
            1 <= m <= 12,
            rem == n - days_before_year(y as int) - days_before_month(y as int, m as int),
            0 <= rem,
            n - days_before_year(y as int) < spec_days_in_year(y as int),
            y <= MAX_YEAR,
        ensures
            1 <= m <= 12,
            rem == n - days_before_year(y as int) - days_before_month(y as int, m as int),
            rem < spec_days_in_month(y as int, m as int),
            y <= MAX_YEAR,
        decreases 12 - m,
    {
        let dm = days_in_month(y, m);
        if rem < dm {
            break;
        }
        proof {
            if m == 12 {
                lemma_year_is_twelve_months(y as int);
            }
        }
        rem = rem - dm;
        m = m + 1;
    }
    CalendarDate { year: y, month: m, day: rem + 1 }
}

/// Truncating (round-toward-zero) division, as Rust's `/` computes it.
pub open spec fn spec_trunc_div(a: int, b: int) -> int {
    if a >= 0 {
        a / b
    } else {
        -((-a) / b)
    }
}

/// Truncating division on `i64`, matching [`spec_trunc_div`]. The one value
/// whose negation overflows, `i64::MIN`, is admitted for divisors of 2 or
/// more, where the quotient's magnitude shrinks back into range.
pub fn trunc_div_i64(a: i64, b: i64) -> (r: i64)
    requires
        1 <= b,
        i64::MIN < a || 2 <= b,
    ensures
        r == spec_trunc_div(a as int, b as int),
{
    if a >= 0 {
        a / b
    } else {
        let m: u64 = if a == i64::MIN {
            9223372036854775808u64
        } else {
            (-a) as u64
        };
        proof {
            assert(m as int == -(a as int));
            vstd::arithmetic::div_mod::lemma_div_pos_is_pos(m as int, b as int);
            vstd::arithmetic::div_mod::lemma_div_nonincreasing(m as int, b as int);
            if b >= 2 {
                vstd::arithmetic::div_mod::lemma_div_is_ordered_by_denominator(m as int, 2, b as int);
                assert(m as int / 2 <= 0x4000_0000_0000_0000) by {
                    vstd::arithmetic::div_mod::lemma_div_is_ordered(
                        m as int,
                        0x8000_0000_0000_0000,
                        2,
                    );
                };
            }
        }
        let q = m / (b as u64);
        -(q as i64)
    }
}

/// Least non-negative residue of `a` modulo `b`.
pub fn floor_mod_i64(a: i64, b: i64) -> (r: i64)
    requires
        1 <= b,
        i64::MIN < a,
    ensures
        r == a as int % b as int,
        0 <= r < b,
{
    proof {
        vstd::arithmetic::div_mod::lemma_mod_bound(a as int, b as int);
    }
    if a >= 0 {
        a % b
    } else {
        let m = (-a) % b;
        proof {
            let u = -(a as int);
            let bb = b as int;
            vstd::arithmetic::div_mod::lemma_mod_bound(u, bb);
            lemma_fundamental_div_mod(u, bb);
            let q = u / bb;
            let m0 = u % bb;
            if m0 == 0 {
                assert(a as int == (-q) * bb + 0) by (nonlinear_arith)
                    requires
                        u == bb * q + m0,
                        m0 == 0,
                        u == -(a as int),
                ;
                vstd::arithmetic::div_mod::lemma_fundamental_div_mod_converse_mod(
                    a as int,
                    bb,
                    -q,
                    0,
                );
            } else {
                assert(a as int == (-q - 1) * bb + (bb - m0)) by (nonlinear_arith)
                    requires
                        u == bb * q + m0,
                        u == -(a as int),
                ;
                vstd::arithmetic::div_mod::lemma_fundamental_div_mod_converse_mod(
                    a as int,
                    bb,
                    -q - 1,
                    bb - m0,
                );
            }
        }
        if m == 0 {
            0
        } else {
            b - m
        }
    }
}

/// Month arithmetic with day clamping: moving a date by `delta` months keeps
/// the day of month, clamped down to the target month's length. `None` means
/// the target month lies outside the supported year range.
pub fn add_months_date(cd: &CalendarDate, delta: i64) -> (r: Option<CalendarDate>)
    requires
        cd.wf(),
        -0x100_0000_0000 <= delta <= 0x100_0000_0000,
    ensures
        r is Some <==> 0 <= cd.month_index() + delta <= MAX_YEAR * 12 + 11,
        r is Some ==> {
            let n = r->Some_0;
            &&& n.wf()
            &&& n.month_index() == cd.month_index() + delta
            &&& n.day == min(cd.day as int, spec_days_in_month(n.year as int, n.month as int))
        },
{
    let t: i64 = cd.year as i64 * 12 + (cd.month as i64 - 1) + delta;
    if t < 0 || t > MAX_YEAR as i64 * 12 + 11 {
        return None;
    }
    proof {
        lemma_fundamental_div_mod(t as int, 12);
    }
    let y: u32 = (t / 12) as u32;
    let m: u32 = (t % 12) as u32 + 1;
    let dim = days_in_month(y, m);
    let d: u32 = if cd.day <= dim {
        cd.day
    } else {
        dim
    };
    Some(CalendarDate { year: y, month: m, day: d })
}

/// Day arithmetic with full calendar carry. `None` means the result falls
/// outside the supported range.
pub fn add_days_date(cd: &CalendarDate, delta: i64) -> (r: Option<CalendarDate>)
    requires
        cd.wf(),
        -0x100_0000_0000 <= delta <= 0x100_0000_0000,
    ensures
        r is Some <==> 0 <= cd.spec_day_number() + delta <= max_day_number(),
        r is Some ==> {
            let n = r->Some_0;
            &&& n.wf()
            &&& n.spec_day_number() == cd.spec_day_number() + delta
        },
{
    let base = day_number_of(cd.year, cd.month, cd.day);
    let max = day_number_of(MAX_YEAR, 12, 31);
    let n: i64 = base as i64 + delta;
    if n < 0 || n > max as i64 {
        return None;
    }
    Some(civil_of_day_number(n as u32))
}

/// The time of day `s` seconds after midnight.
pub fn time_from_seconds(s: u32) -> (r: ClockTime)
    requires
        s < 86400,
    ensures
        r.wf(),
        r.spec_seconds_of_day() == s,
{
    proof {
        lemma_fundamental_div_mod(s as int, 3600);
        lemma_fundamental_div_mod((s as int) % 3600, 60);
        vstd::arithmetic::div_mod::lemma_mod_bound(s as int, 3600);
        vstd::arithmetic::div_mod::lemma_mod_bound((s as int) % 3600, 60);
    }
    let h = s / 3600;
    let rem = s % 3600;
    ClockTime { hour: h, minute: rem / 60, second: rem % 60 }
}

/// Seconds since midnight of a time of day.
pub fn seconds_of_day(t: &ClockTime) -> (r: u32)
    requires
        t.wf(),
    ensures
        r == t.spec_seconds_of_day(),
        r < 86400,
{
    t.hour * 3600 + t.minute * 60 + t.second
}

/// Wall-clock arithmetic: shifting a time of day wraps modulo 24 hours; no
/// day carry is tracked.
pub fn shift_time(t: &ClockTime, delta_secs: i64) -> (r: ClockTime)
    requires
        t.wf(),
        -0x1_0000_0000_0000 <= delta_secs <= 0x1_0000_0000_0000,
    ensures
        r.wf(),
        r.spec_seconds_of_day() == (t.spec_seconds_of_day() + delta_secs) % 86400,
{
    let base = seconds_of_day(t);
    let s = floor_mod_i64(base as i64 + delta_secs, 86400);
    time_from_seconds(s as u32)
}

/// The last representable instant, 9999-12-31 23:59:59, in seconds since
/// 0000-01-01 00:00:00.
pub open spec fn max_instant() -> int {
    (max_day_number() + 1) * 86400 - 1
}

/// Seconds since 0000-01-01 00:00:00 of a datetime.
pub fn instant_of_datetime(dt: &CalendarDateTime) -> (r: i64)
    requires
        dt.wf(),
    ensures
        r == dt.spec_instant(),
        0 <= r <= max_instant(),
{
    let dn = day_number_of(dt.date.year, dt.date.month, dt.date.day);
    let sod = seconds_of_day(&dt.time);
    dn as i64 * 86400 + sod as i64
}

/// The unique datetime at a given instant of the supported range.
pub fn datetime_of_instant(inst: i64) -> (r: CalendarDateTime)
    requires
        0 <= inst <= max_instant(),
    ensures
        r.wf(),
        r.spec_instant() == inst,
{
    let u = inst as u64;
    proof {
        lemma_fundamental_div_mod(u as int, 86400);
        vstd::arithmetic::div_mod::lemma_mod_bound(u as int, 86400);
    }
    let dn = u / 86400;
    let sod = u % 86400;
    proof {
        lemma_max_day_number_bound();
        if dn > max_day_number() {
            assert(86400 * (dn as int) >= 86400 * (max_day_number() + 1));
            assert(false);
        }
    }
    let date = civil_of_day_number(dn as u32);
    let time = time_from_seconds(sod as u32);
    CalendarDateTime { date, time }
}

/// Second-level arithmetic on a datetime, carrying into the date. `None`
/// means the result falls outside the supported range.
pub fn shift_datetime(dt: &CalendarDateTime, delta_secs: i64) -> (r: Option<CalendarDateTime>)
    requires
        dt.wf(),
        -0x1_0000_0000_0000 <= delta_secs <= 0x1_0000_0000_0000,
    ensures
        r is Some <==> 0 <= dt.spec_instant() + delta_secs <= max_instant(),
        r is Some ==> {
            let n = r->Some_0;
            &&& n.wf()
            &&& n.spec_instant() == dt.spec_instant() + delta_secs
        },
{
    let inst = instant_of_datetime(dt);
    let max = day_number_of(MAX_YEAR, 12, 31) as i64 * 86400 + 86399;
    let n = inst + delta_secs;
    if n < 0 || n > max {
        return None;
    }
    Some(datetime_of_instant(n))
}

} // verus!

//! Verified proleptic-Gregorian calendar arithmetic.
//!
//! Dates are modelled by their civil fields (year, month, day) and by an
//! absolute day number counted from the Unix epoch (1970-01-01 is day 0).
//! Both directions of the conversion are verified: `civil_to_days` against a
//! closed-form day count, and `civil_from_days` by proving that the civil
//! date it returns maps back to its input day number.

use vstd::prelude::*;

verus! {

use vstd::arithmetic::div_mod::lemma_fundamental_div_mod_converse;

/// Smallest supported year.
pub const MIN_YEAR: i16 = -9999;

/// Largest supported year.
pub const MAX_YEAR: i16 = 9999;

/// Day number of `MIN_YEAR-01-01`.
pub const MIN_EPOCH_DAY: i64 = -4371587;

/// Day number of `MAX_YEAR-12-31`.
pub const MAX_EPOCH_DAY: i64 = 2932896;

/// True for years with 366 days in the proleptic Gregorian calendar.
pub open spec fn spec_is_leap_year(y: int) -> bool {
    y % 4 == 0 && (y % 100 != 0 || y % 400 == 0)
}

/// Number of days in month `m` of year `y` (`m` in `1..=12`).
pub open spec fn spec_days_in_month(y: int, m: int) -> int {
    if m == 2 {
        if spec_is_leap_year(y) {
            29
        } else {
            28
        }
    } else if m == 4 || m == 6 || m == 9 || m == 11 {
        30
    } else {
        31
    }
}

/// Number of days in the months of year `y` strictly before month `m`.
pub open spec fn spec_days_before_month(y: int, m: int) -> int
    decreases m,
{
    if m <= 1 {
        0
    } else {
        spec_days_before_month(y, m - 1) + spec_days_in_month(y, m - 1)
    }
}

/// Number of days in year `y`: 365, or 366 in a leap year.
pub open spec fn spec_year_length(y: int) -> int {
    if spec_is_leap_year(y) {
        366
    } else {
        365
    }
}

/// Days from 0001-01-01 to `y`-01-01 (negative for years before 1).
/// The three quotient terms count the leap days; `/` on `int` rounds
/// toward negative infinity for these positive divisors, so the count
/// is exact for negative years as well.
pub open spec fn spec_days_before_year(y: int) -> int {
    365 * (y - 1) + (y - 1) / 4 - (y - 1) / 100 + (y - 1) / 400
}

/// Absolute day number of the civil date `y-m-d`, with 1970-01-01 as day 0.
pub open spec fn spec_epoch_days(y: int, m: int, d: int) -> int {
    spec_days_before_year(y) + spec_days_before_month(y, m) + (d - 1) - 719162
}

/// Validity of a civil date within the supported year range.
pub open spec fn spec_valid_date(y: int, m: int, d: int) -> bool {
    &&& MIN_YEAR as int <= y <= MAX_YEAR as int
    &&& 1 <= m <= 12
    &&& 1 <= d <= spec_days_in_month(y, m)
}

/// Whether `y` is a leap year.
pub fn is_leap_year(y: i16) -> (r: bool)
    ensures
        r == spec_is_leap_year(y as int),
{
    y % 4 == 0 && (y % 100 != 0 || y % 400 == 0)
}

/// Number of days in month `m` of year `y`.
pub fn days_in_month(y: i16, m: i8) -> (r: i8)
    requires
        1 <= m <= 12,
    ensures
        r == spec_days_in_month(y as int, m as int),
        28 <= r <= 31,
{
    if m == 2 {
        if is_leap_year(y) {
            29
        } else {
            28
        }
    } else if m == 4 || m == 6 || m == 9 || m == 11 {
        30
    } else {
        31
    }
}

/// Days in the months of year `y` strictly before month `m`.
pub fn days_before_month(y: i16, m: i8) -> (r: i16)
    requires
        1 <= m <= 13,
    ensures
        r == spec_days_before_month(y as int, m as int),
        0 <= r <= 366,
{
    let mut acc: i16 = 0;
    let mut i: i8 = 1;
    while i < m
        invariant
            1 <= i <= m <= 13,
            acc == spec_days_before_month(y as int, i as int),
            0 <= acc <= 366,
        decreases m - i,
    {
        proof {
            lemma_days_before_month_bounds(y as int, (i + 1) as int);
        }
        acc = acc + (days_in_month(y, i) as i16);
        i = i + 1;
    }
    acc
}

/// `spec_days_before_month` grows by at most 31 a month and never
/// exceeds a year's length.
pub proof fn lemma_days_before_month_bounds(y: int, m: int)
    requires
        1 <= m <= 13,
    ensures
        0 <= spec_days_before_month(y, m) <= 366,
        spec_days_before_month(y, 13) == spec_year_length(y),
{
    reveal_with_fuel(spec_days_before_month, 14);
}

/// Shifting the dividend by a multiple of the divisor shifts the
/// quotient by that multiple, for non-negative dividends.
proof fn lemma_div_shift(t: int, d: int, k: int)
    requires
        0 < d,
        0 <= t,
    ensures
        (t - k * d) / d == t / d - k,
{
    vstd::arithmetic::div_mod::lemma_fundamental_div_mod(t, d);
    vstd::arithmetic::div_mod::lemma_mod_pos_bound(t, d);
    assert((t / d - k) * d + t % d == t - k * d) by (nonlinear_arith)
        requires
            t == d * (t / d) + t % d,
    ;
    lemma_fundamental_div_mod_converse(t - k * d, d, t / d - k, t % d);
}

/// Absolute day number of a valid civil date.
pub fn civil_to_days(y: i16, m: i8, d: i8) -> (r: i64)
    requires
        spec_valid_date(y as int, m as int, d as int),
    ensures
        r == spec_epoch_days(y as int, m as int, d as int),
        MIN_EPOCH_DAY <= r <= MAX_EPOCH_DAY,
{
    // Shift y-1 by 12000 (a multiple of 400) so every division below is on
    // a non-negative value, where Rust's `/` agrees with flooring division.
    let ym1: i64 = (y as i64) - 1;
    let t: i64 = ym1 + 12000;
    let before_year: i64 = 365 * ym1 + (t / 4 - 3000) - (t / 100 - 120) + (t / 400 - 30);
    proof {
        lemma_div_shift(t as int, 4, 3000);
        lemma_div_shift(t as int, 100, 120);
        lemma_div_shift(t as int, 400, 30);
    }
    let bm: i16 = days_before_month(y, m);
    let r: i64 = before_year + (bm as i64) + (d as i64) - 1 - 719162;
    proof {
        lemma_epoch_days_range(y as int, m as int, d as int);
    }
    r
}

/// The year-start day count is monotone: at least 365 days pass per year.
proof fn lemma_dby_monotonic(y1: int, y2: int)
    requires
        y1 <= y2,
    ensures
        spec_days_before_year(y1) + 365 * (y2 - y1) <= spec_days_before_year(y2),
    decreases y2 - y1,
{
    if y1 < y2 {
        lemma_dby_monotonic(y1, y2 - 1);
        lemma_year_step(y2 - 1);
    }
}

/// Every valid civil date has its day number inside the supported window.
proof fn lemma_epoch_days_range(y: int, m: int, d: int)
    requires
        spec_valid_date(y, m, d),
    ensures
        MIN_EPOCH_DAY <= spec_epoch_days(y, m, d) <= MAX_EPOCH_DAY,
{
    lemma_days_before_month_bounds(y, m);
    lemma_days_before_month_bounds(y, 13);
    lemma_dbm_monotonic(y, m + 1, 13);
    // A date never reaches the next year's start ...
    assert(spec_days_before_month(y, m) + d - 1 < spec_year_length(y));
    lemma_year_step(y);
    // ... so its day number lies between this year's start and the day
    // before the start of the year after the last supported one.
    lemma_dby_monotonic(MIN_YEAR as int, y);
    lemma_dby_monotonic(y + 1, MAX_YEAR as int + 1);
    assert(spec_days_before_year(MIN_YEAR as int) == -3652425);
    assert(spec_days_before_year(MAX_YEAR as int + 1) == 3652059);
}

/// Stepping the dividend by one bumps the quotient exactly at
/// multiples of the divisor.
proof fn lemma_div_step(y: int, d: int)
    requires
        0 < d,
    ensures
        y % d == 0 ==> y / d == (y - 1) / d + 1,
        y % d != 0 ==> y / d == (y - 1) / d,
{
    let q = (y - 1) / d;
    let r = (y - 1) % d;
    vstd::arithmetic::div_mod::lemma_fundamental_div_mod(y - 1, d);
    vstd::arithmetic::div_mod::lemma_mod_bound(y - 1, d);
    assert((q + 1) * d + 0 == d * q + d && q * d + (r + 1) == d * q + r + 1)
        by (nonlinear_arith);
    if r == d - 1 {
        lemma_fundamental_div_mod_converse(y, d, q + 1, 0);
    } else {
        lemma_fundamental_div_mod_converse(y, d, q, r + 1);
    }
}

/// The day count steps by exactly one year length from one January 1st
/// to the next.
proof fn lemma_year_step(y: int)
    ensures
        spec_days_before_year(y + 1) == spec_days_before_year(y) + spec_year_length(y),
{
    lemma_div_step(y, 4);
    lemma_div_step(y, 100);
    lemma_div_step(y, 400);
}

/// Number of days in year `y`.
pub fn year_length(y: i16) -> (r: i64)
    ensures
        r == spec_year_length(y as int),
{
    if is_leap_year(y) {
        366
    } else {
        365
    }
}

/// Recover the civil date of an absolute day number by scanning years and
/// months; the result is pinned down by mapping back to the input.
pub fn civil_from_days(days: i64) -> (r: (i16, i8, i8))
    requires
        MIN_EPOCH_DAY <= days <= MAX_EPOCH_DAY,
    ensures
        spec_valid_date(r.0 as int, r.1 as int, r.2 as int),
        spec_epoch_days(r.0 as int, r.1 as int, r.2 as int) == days,
{
    let mut y: i16 = MIN_YEAR;
    let mut start: i64 = MIN_EPOCH_DAY;
    proof {
        assert(spec_epoch_days(MIN_YEAR as int, 1, 1) == MIN_EPOCH_DAY);
    }
    while start + year_length(y) <= days
        invariant
            MIN_YEAR <= y <= MAX_YEAR,
            start == spec_epoch_days(y as int, 1, 1),
            start <= days <= MAX_EPOCH_DAY,
        decreases MAX_YEAR - y,
    {
        proof {
            lemma_year_step(y as int);
            if y == MAX_YEAR {
                assert(spec_epoch_days(MAX_YEAR as int + 1, 1, 1) == MAX_EPOCH_DAY + 1);
            }
        }
        start = start + year_length(y);
        y = y + 1;
    }
    proof {
        lemma_year_step(y as int);
    }
    // days now falls inside year y: start <= days < start + year_length(y).
    let mut m: i8 = 1;
    let mut mstart: i64 = start;
    while mstart + (days_in_month(y, m) as i64) <= days
        invariant
            1 <= m <= 12,
            mstart == spec_epoch_days(y as int, m as int, 1),
            mstart <= days,
            days < spec_epoch_days(y as int, 1, 1) + spec_year_length(y as int),
            MIN_YEAR <= y <= MAX_YEAR,
        decreases 12 - m,
    {
        proof {
            lemma_days_before_month_bounds(y as int, 13);
            lemma_days_before_month_bounds(y as int, (m + 1) as int);
        }
        mstart = mstart + (days_in_month(y, m) as i64);
        m = m + 1;
    }
    proof {
        lemma_days_before_month_bounds(y as int, (m + 1) as int);
    }
    let d: i8 = (days - mstart + 1) as i8;
    (y, m, d)
}

/// Day of the year, 1-based (1..=366).
pub fn day_of_year(y: i16, m: i8, d: i8) -> (r: i16)
    requires
        spec_valid_date(y as int, m as int, d as int),
    ensures
        r == spec_days_before_month(y as int, m as int) + d,
        1 <= r <= 366,
{
    proof {
        lemma_days_before_month_bounds(y as int, m as int);
        lemma_days_before_month_bounds(y as int, 13);
        assert(spec_days_before_month(y as int, m as int) + spec_days_in_month(
            y as int,
            m as int,
        ) <= spec_days_before_month(y as int, 13)) by {
            lemma_dbm_monotonic(y as int, (m + 1) as int, 13);
        }
    }
    days_before_month(y, m) + (d as i16)
}

/// `spec_days_before_month` is monotonic in the month.
proof fn lemma_dbm_monotonic(y: int, m1: int, m2: int)
    requires
        1 <= m1 <= m2 <= 13,
    ensures
        spec_days_before_month(y, m1) <= spec_days_before_month(y, m2),
    decreases m2 - m1,
{
    if m1 < m2 {
        lemma_dbm_monotonic(y, m1, m2 - 1);
        lemma_days_before_month_bounds(y, m2 - 1);
    }
}

/// Weekday with the fixed Sunday = 0 convention (1970-01-01 was a
/// Thursday, day 4).
pub open spec fn spec_weekday_sunday0(days: int) -> int {
    (days + 4) % 7
}

/// Weekday with the ISO Monday = 1 .. Sunday = 7 convention, used only
/// for ISO week numbering.
pub open spec fn spec_weekday_iso(days: int) -> int {
    (days + 3) % 7 + 1
}

/// Weekday of an absolute day number, Sunday = 0 convention.
pub fn weekday_sunday0(days: i64) -> (r: i8)
    requires
        MIN_EPOCH_DAY <= days <= MAX_EPOCH_DAY,
    ensures
        r == spec_weekday_sunday0(days as int),
        0 <= r <= 6,
{
    // 4371591 is a multiple of 7 that makes the dividend non-negative.
    let t: i64 = days + 4 + 4371591;
    let r: i64 = t % 7;
    proof {
        vstd::arithmetic::div_mod::lemma_fundamental_div_mod(t as int, 7);
        vstd::arithmetic::div_mod::lemma_mod_pos_bound(t as int, 7);
        lemma_fundamental_div_mod_converse(
            (days + 4) as int,
            7,
            t as int / 7 - 624513,
            t as int % 7,
        );
    }
    r as i8
}

/// Weekday of an absolute day number, ISO Monday = 1 convention.  The
/// domain reaches one year below the supported range, for the ISO-week
/// fallback of the very first supported days.
pub fn weekday_iso(days: i64) -> (r: i8)
    requires
        MIN_EPOCH_DAY - 366 <= days <= MAX_EPOCH_DAY,
    ensures
        r == spec_weekday_iso(days as int),
        1 <= r <= 7,
{
    let t: i64 = days + 3 + 4372200;
    let r: i64 = t % 7;
    proof {
        vstd::arithmetic::div_mod::lemma_fundamental_div_mod(t as int, 7);
        vstd::arithmetic::div_mod::lemma_mod_pos_bound(t as int, 7);
        lemma_fundamental_div_mod_converse(
            (days + 3) as int,
            7,
            t as int / 7 - 624600,
            t as int % 7,
        );
    }
    (r + 1) as i8
}

/// Number of ISO weeks in year `y`: 53 when January 1st is a Thursday,
/// or a Wednesday of a leap year; 52 otherwise.
pub open spec fn spec_iso_weeks_in_year(y: int) -> int {
    let jw = spec_weekday_iso(spec_epoch_days(y, 1, 1));
    if jw == 4 || (spec_is_leap_year(y) && jw == 3) {
        53
    } else {
        52
    }
}

/// ISO week number of a valid civil date: the week containing the date's
/// Thursday owns it, so the first and last few days of a year may belong
/// to the neighbouring year's last or first week.
pub open spec fn spec_iso_week(y: int, m: int, d: int) -> int {
    let doy = spec_days_before_month(y, m) + d;
    let dow = spec_weekday_iso(spec_epoch_days(y, m, d));
    let w = (doy - dow + 10) / 7;
    if w < 1 {
        spec_iso_weeks_in_year(y - 1)
    } else if w > spec_iso_weeks_in_year(y) {
        1
    } else {
        w
    }
}

/// ISO week number of a valid civil date.
pub fn iso_week(y: i16, m: i8, d: i8) -> (r: i8)
    requires
        spec_valid_date(y as int, m as int, d as int),
    ensures
        r == spec_iso_week(y as int, m as int, d as int),
        1 <= r <= 53,
{
    let days = civil_to_days(y, m, d);
    let doy = day_of_year(y, m, d);
    let dow = weekday_iso(days);
    let num: i64 = (doy as i64) - (dow as i64) + 10;
    let w: i64 = num / 7;
    proof {
        lemma_fundamental_div_mod_converse(
            num as int,
            7,
            num as int / 7,
            num as int % 7,
        );
    }
    if w < 1 {
        iso_weeks_in_year(y - 1)
    } else {
        let wiy = iso_weeks_in_year(y);
        if w > (wiy as i64) {
            1
        } else {
            w as i8
        }
    }
}

/// Day number of January 1st of `y`, defined one year below the
/// supported range as well: that year is a leap year, so its start is
/// 366 days before the first supported day.
fn epoch_days_of_jan1(y: i16) -> (r: i64)
    requires
        MIN_YEAR - 1 <= y <= MAX_YEAR,
    ensures
        r == spec_epoch_days(y as int, 1, 1),
        MIN_EPOCH_DAY - 366 <= r <= MAX_EPOCH_DAY,
{
    if y >= MIN_YEAR {
        civil_to_days(y, 1, 1)
    } else {
        proof {
            lemma_year_step(MIN_YEAR as int - 1);
            assert(spec_epoch_days(MIN_YEAR as int, 1, 1) == MIN_EPOCH_DAY);
            assert(spec_year_length(MIN_YEAR as int - 1) == 366);
        }
        MIN_EPOCH_DAY - 366
    }
}

/// Number of ISO weeks in year `y`, defined one year below the
/// supported range as well for the week fallback at its boundary.
pub fn iso_weeks_in_year(y: i16) -> (r: i8)
    requires
        MIN_YEAR - 1 <= y <= MAX_YEAR,
    ensures
        r == spec_iso_weeks_in_year(y as int),
        52 <= r <= 53,
{
    let jan1 = epoch_days_of_jan1(y);
    let jw = weekday_iso(jan1);
    if jw == 4 || (is_leap_year(y) && jw == 3) {
        53
    } else {
        52
    }
}

} // verus!

//! Ramadan by the arithmetic (tabular) Islamic calendar, which needs no
//! calendar data: a 30-year cycle of 10631 days, each year starting on a
//! fixed day of the cycle.

use vstd::prelude::*;

use crate::clock::div_toward_zero;
use crate::hijri::{days_in_gregorian_month, is_gregorian_leap_year};

verus! {

/// The Julian Day Number of a proleptic Gregorian date, by the usual
/// integer formula with months counted from March.
pub open spec fn julian_day_number(year: int, month: int, day: int) -> int {
    let a: int = if month <= 2 {
        1
    } else {
        0
    };
    let y = year + 4800 - a;
    let m = month + 12 * a - 3;
    day + div_toward_zero(153 * m + 2, 5) + 365 * y + div_toward_zero(y, 4) - div_toward_zero(y, 100)
        + div_toward_zero(y, 400) - 32045
}

/// The day of the 30-year cycle (shifted by 354 days) on which a Julian
/// Day Number falls.
pub open spec fn cycle_day(jdn: int) -> int {
    let c = jdn - 1937808;
    c - 10631 * div_toward_zero(c - 1, 10631) + 354
}

/// The first day of Ramadan, in the shifted cycle days, of the tabular
/// year in which cycle day `c` falls.
pub open spec fn ramadan_start(c: int) -> int {
    let year_in_cycle = div_toward_zero(30 * c - 4, 10631);
    div_toward_zero(10631 * year_in_cycle + 7113, 30)
}

/// Whether cycle day `c` lies within the 30 days of Ramadan of its tabular
/// year.
pub open spec fn in_ramadan_on_cycle_day(c: int) -> bool {
    ramadan_start(c) <= c < ramadan_start(c) + 30
}

/// Whether a Gregorian date falls in the 30 days of Ramadan of the tabular
/// Islamic year it belongs to.
pub open spec fn tabular_ramadan(year: int, month: int, day: int) -> bool {
    in_ramadan_on_cycle_day(cycle_day(julian_day_number(year, month, day)))
}

/// The first cycle day of Ramadan in year `y` of the 30-year cycle.
pub open spec fn ramadan_first_day(y: int) -> int {
    div_toward_zero(10631 * y + 7113, 30)
}

/// Each tabular year has one Ramadan of exactly 30 consecutive days: from
/// its first day `s`, the days `s .. s + 30` all lie in Ramadan and start
/// it at `s`, while the day before `s` and the day `s + 30` do not.
pub proof fn lemma_ramadan_lasts_thirty_days(y: int, k: int)
    requires
        0 <= y,
        -1 <= k <= 30,
    ensures
        ramadan_start(ramadan_first_day(y) + k) == ramadan_first_day(y),
        in_ramadan_on_cycle_day(ramadan_first_day(y) + k) <==> 0 <= k < 30,
{
    let n = 10631 * y + 7113;
    let s = ramadan_first_day(y);
    assert(s == n / 30);
    vstd::arithmetic::div_mod::lemma_fundamental_div_mod(n, 30);
    let r = n % 30;
    assert(30 * s == n - r);
    let c = s + k;
    let t = 30 * c - 4;
    assert(t == 10631 * y + 7109 - r + 30 * k);
    assert(10631 * y <= t < 10631 * y + 10631);
    vstd::arithmetic::div_mod::lemma_fundamental_div_mod_converse(t, 10631, y, t - 10631 * y);
    assert(div_toward_zero(t, 10631) == y);
}

/// Leap days counted by the Gregorian rule up to year `x` of the day count.
spec fn leap_days(x: int) -> int {
    div_toward_zero(x, 4) - div_toward_zero(x, 100) + div_toward_zero(x, 400)
}

proof fn lemma_floor_step(x: int, k: int)
    requires
        x >= 0,
        k > 0,
    ensures
        (x + 1) / k == x / k + (if (x + 1) % k == 0 {
            1int
        } else {
            0int
        }),
{
    vstd::arithmetic::div_mod::lemma_fundamental_div_mod(x, k);
    vstd::arithmetic::div_mod::lemma_mod_bound(x, k);
    let q = x / k;
    assert((q + 1) * k == k * q + k) by (nonlinear_arith);
    assert(q * k == k * q) by (nonlinear_arith);
    if x % k == k - 1 {
        vstd::arithmetic::div_mod::lemma_fundamental_div_mod_converse(x + 1, k, x / k + 1, 0);
    } else {
        vstd::arithmetic::div_mod::lemma_fundamental_div_mod_converse(x + 1, k, x / k, x % k + 1);
    }
}

proof fn lemma_leap_step(year: int)
    requires
        year >= -4799,
    ensures
        leap_days(year + 4800) - leap_days(year + 4799) == (if is_gregorian_leap_year(year) {
            1int
        } else {
            0int
        }),
{
    let x = year + 4799;
    lemma_floor_step(x, 4);
    lemma_floor_step(x, 100);
    lemma_floor_step(x, 400);
    vstd::arithmetic::div_mod::lemma_mod_multiples_vanish(1200, year, 4);
    vstd::arithmetic::div_mod::lemma_mod_multiples_vanish(48, year, 100);
    vstd::arithmetic::div_mod::lemma_mod_multiples_vanish(12, year, 400);
    assert(x + 1 == 4 * 1200 + year);
    assert(x + 1 == 100 * 48 + year);
    assert(x + 1 == 400 * 12 + year);
}

proof fn lemma_month_offsets()
    ensures
        div_toward_zero(153 * 0 + 2int, 5) == 0,
        div_toward_zero(153 * 1 + 2int, 5) == 31,
        div_toward_zero(153 * 2 + 2int, 5) == 61,
        div_toward_zero(153 * 3 + 2int, 5) == 92,
        div_toward_zero(153 * 4 + 2int, 5) == 122,
        div_toward_zero(153 * 5 + 2int, 5) == 153,
        div_toward_zero(153 * 6 + 2int, 5) == 184,
        div_toward_zero(153 * 7 + 2int, 5) == 214,
        div_toward_zero(153 * 8 + 2int, 5) == 245,
        div_toward_zero(153 * 9 + 2int, 5) == 275,
        div_toward_zero(153 * 10 + 2int, 5) == 306,
        div_toward_zero(153 * 11 + 2int, 5) == 337,
{
}

/// The day number counts days: 2000-01-01 is day 2451545, and each date's
/// successor in the Gregorian calendar (the next day of the month, the
/// first of the next month, or the first of January of the next year) has
/// the next day number. Stated for the years from -4799 on, where the
/// count's divisions are of non-negative numbers.
pub proof fn lemma_julian_day_number_counts_days(year: int, month: int, day: int)
    requires
        year >= -4799,
        1 <= month <= 12,
        1 <= day <= days_in_gregorian_month(year, month),
    ensures
        julian_day_number(2000, 1, 1) == 2451545,
        day < days_in_gregorian_month(year, month) ==> julian_day_number(year, month, day + 1)
            == julian_day_number(year, month, day) + 1,
        day == days_in_gregorian_month(year, month) && month < 12 ==> julian_day_number(
            year,
            month + 1,
            1,
        ) == julian_day_number(year, month, day) + 1,
        day == days_in_gregorian_month(year, month) && month == 12 ==> julian_day_number(
            year + 1,
            1,
            1,
        ) == julian_day_number(year, month, day) + 1,
{
    lemma_month_offsets();
    assert(julian_day_number(2000, 1, 1) == 2451545);
    if day == days_in_gregorian_month(year, month) {
        if month == 2 {
            lemma_leap_step(year);
            assert(julian_day_number(year, 2, day) == day + 337 + 365 * (year + 4799) + leap_days(
                year + 4799,
            ) - 32045);
            assert(julian_day_number(year, 3, 1) == 1 + 0 + 365 * (year + 4800) + leap_days(
                year + 4800,
            ) - 32045);
        } else if month == 12 {
            assert(julian_day_number(year + 1, 1, 1) == 1 + 306 + 365 * (year + 4800) + leap_days(
                year + 4800,
            ) - 32045);
            assert(julian_day_number(year, 12, 31) == 31 + 275 + 365 * (year + 4800) + leap_days(
                year + 4800,
            ) - 32045);
        } else if month == 1 {
            assert(julian_day_number(year, 2, 1) == 1 + 337 + 365 * (year + 4799) + leap_days(
                year + 4799,
            ) - 32045);
        } else {
            let y = year + 4800;
            assert(julian_day_number(year, month, day) == day + div_toward_zero(
                153 * (month - 3) + 2,
                5,
            ) + 365 * y + leap_days(y) - 32045);
            assert(julian_day_number(year, month + 1, 1) == 1 + div_toward_zero(
                153 * (month - 2) + 2,
                5,
            ) + 365 * y + leap_days(y) - 32045);
        }
    }
}

/// Ramadan is a run of consecutive days. From day number 1937809 on: a day
/// of Ramadan other than its 30th is followed, on the next day number, by
/// a day of the same Ramadan; the day after its 30th is not in Ramadan.
pub proof fn lemma_ramadan_days_are_consecutive(jdn: int)
    requires
        jdn - 1937808 >= 1,
        in_ramadan_on_cycle_day(cycle_day(jdn)),
    ensures
        cycle_day(jdn + 1) == cycle_day(jdn) + 1,
        cycle_day(jdn) < ramadan_start(cycle_day(jdn)) + 29 ==> in_ramadan_on_cycle_day(
            cycle_day(jdn + 1),
        ) && ramadan_start(cycle_day(jdn + 1)) == ramadan_start(cycle_day(jdn)),
        cycle_day(jdn) == ramadan_start(cycle_day(jdn)) + 29 ==> !in_ramadan_on_cycle_day(
            cycle_day(jdn + 1),
        ),
{
    let c0 = jdn - 1937808;
    let c = cycle_day(jdn);
    vstd::arithmetic::div_mod::lemma_fundamental_div_mod(c0 - 1, 10631);
    assert(div_toward_zero(c0 - 1, 10631) == (c0 - 1) / 10631);
    assert(355 <= c <= 10985);
    let y = div_toward_zero(30 * c - 4, 10631);
    assert(y >= 0);
    assert(ramadan_start(c) == ramadan_first_day(y));
    let k = c - ramadan_start(c);
    lemma_ramadan_lasts_thirty_days(y, k);
    assert(0 <= k < 30);
    lemma_ramadan_lasts_thirty_days(y, k + 1);
    // The run ends well before the last day of the cycle, so the next day
    // number does not wrap around.
    vstd::arithmetic::div_mod::lemma_fundamental_div_mod(30 * c - 4, 10631);
    assert(y <= 30);
    assert(ramadan_first_day(y) <= 10897) by {
        assert(10631 * y + 7113 <= 10631 * 30 + 7113);
    }
    assert(c < 10985);
    lemma_floor_step(c0 - 1, 10631);
    assert(c0 % 10631 != 0);
    assert(div_toward_zero(c0, 10631) == c0 / 10631);
}

/// `a / b` with Rust's truncating division.
fn trunc_div(a: i32, b: i32) -> (q: i32)
    requires
        b > 0,
    ensures
        q == div_toward_zero(a as int, b as int),
        a >= 0 ==> 0 <= a - b * q < b,
        a < 0 ==> -b < a - b * q <= 0,
{
    proof {
        lemma_trunc_div_remainder(a as int, b as int);
    }
    a / b
}

proof fn lemma_trunc_div_remainder(a: int, b: int)
    requires
        b > 0,
    ensures
        a >= 0 ==> 0 <= a - b * div_toward_zero(a, b) < b,
        a < 0 ==> -b < a - b * div_toward_zero(a, b) <= 0,
{
    if a >= 0 {
        vstd::arithmetic::div_mod::lemma_fundamental_div_mod(a, b);
    } else {
        vstd::arithmetic::div_mod::lemma_fundamental_div_mod(-a, b);
        assert(b * (-((-a) / b)) == -(b * ((-a) / b))) by (nonlinear_arith);
    }
}

/// Whether a Gregorian date falls in Ramadan by the tabular Islamic
/// calendar.
pub fn is_ramadan(year: i32, month: u8, day: u8) -> (r: bool)
    requires
        -999_999 <= year <= 999_999,
        1 <= month <= 12,
        1 <= day <= 31,
    ensures
        r == tabular_ramadan(year as int, month as int, day as int),
{
    let (y, m, d) = (year, month as i32, day as i32);
    let a: i32 = if m <= 2 {
        1
    } else {
        0
    };
    let y4 = y + 4800 - a;
    let m4 = m + 12 * a - 3;
    let jd = d + trunc_div(153 * m4 + 2, 5) + 365 * y4 + trunc_div(y4, 4) - trunc_div(y4, 100)
        + trunc_div(y4, 400) - 32045;

    let c0 = jd - 1937808;
    let n = trunc_div(c0 - 1, 10631);
    let cycle = c0 - 10631 * n + 354;

    let year_in_cycle = trunc_div(30 * cycle - 4, 10631);
    let start = trunc_div(10631 * year_in_cycle + 7113, 30);

    cycle >= start && cycle < start + 30
}

} // verus!

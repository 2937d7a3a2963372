//! The proleptic Gregorian calendar as integer arithmetic: leap years,
//! month lengths, and the bijection between a day count from the Unix
//! epoch and a civil date. The decomposition function is total over the
//! range of instants the timestamp types can hold.

use vstd::prelude::*;
use vstd::arithmetic::div_mod::lemma_mod_multiples_vanish;
use vstd::arithmetic::mul::lemma_mul_inequality;

verus! {

/// Gregorian leap-year rule.
pub open spec fn is_leap_year(y: int) -> bool {
    y % 4 == 0 && (y % 100 != 0 || y % 400 == 0)
}

/// Days in year `y`.
pub open spec fn days_in_year(y: int) -> int {
    if is_leap_year(y) {
        366
    } else {
        365
    }
}

/// Days from 1970-01-01 to the first day of year `y` (negative for
/// earlier years).
pub open spec fn days_before_year(y: int) -> int
    decreases
            (if y >= 1970 {
                y - 1970
            } else {
                1970 - y
            }),
{
    if y == 1970 {
        0
    } else if y > 1970 {
        days_before_year(y - 1) + days_in_year(y - 1)
    } else {
        days_before_year(y + 1) - days_in_year(y)
    }
}

/// Days in month `m` of year `y` (months counted 1 to 12).
pub open spec fn days_in_month(y: int, m: int) -> int {
    if m == 1 || m == 3 || m == 5 || m == 7 || m == 8 || m == 10 || m == 12 {
        31
    } else if m == 4 || m == 6 || m == 9 || m == 11 {
        30
    } else if m == 2 {
        if is_leap_year(y) {
            29
        } else {
            28
        }
    } else {
        0
    }
}

/// Days from the first of year `y` to the first of month `m`.
pub open spec fn days_before_month(y: int, m: int) -> int
    decreases m,
{
    if m <= 1 {
        0
    } else {
        days_before_month(y, m - 1) + days_in_month(y, m - 1)
    }
}

/// Stepping one year forward adds that year's length.
pub proof fn lemma_days_before_year_succ(y: int)
    ensures
        days_before_year(y + 1) == days_before_year(y) + days_in_year(y),
    decreases
            (if y >= 1970 {
                y - 1970
            } else {
                1970 - y
            }),
{
    if y + 1 > 1970 {
    } else {
        assert(days_before_year(y) == days_before_year(y + 1) - days_in_year(y));
    }
}

/// The twelve months of a year sum to the year's length.
pub proof fn lemma_months_fill_year(y: int)
    ensures
        days_before_month(y, 13) == days_in_year(y),
{
    reveal_with_fuel(days_before_month, 14);
}

/// How fast the epoch-relative day count grows with the year.
pub proof fn lemma_days_before_year_bounds(y: int)
    ensures
        y >= 1970 ==> 365 * (y - 1970) <= days_before_year(y) <= 366 * (y - 1970),
        y <= 1970 ==> 366 * (y - 1970) <= days_before_year(y) <= 365 * (y - 1970),
    decreases
            (if y >= 1970 {
                y - 1970
            } else {
                1970 - y
            }),
{
    if y > 1970 {
        lemma_days_before_year_bounds(y - 1);
    } else if y < 1970 {
        lemma_days_before_year_bounds(y + 1);
    }
}

/// A year whose first day lies at most 100 million days before the
/// epoch cannot be arbitrarily early.
proof fn lemma_year_not_too_low(y: int)
    requires
        y <= 1970,
        days_before_year(y) >= -100_000_001,
    ensures
        y >= -272_010,
{
    if y < -272_010 {
        lemma_days_before_year_bounds(y);
        lemma_mul_inequality(y - 1970, -273_981, 365);
        assert(365 * (y - 1970) == (y - 1970) * 365) by (nonlinear_arith);
        assert(-273_981 * 365 == -100_003_065);
        assert(false);
    }
}

/// A year whose first day lies at most 100 million days after the
/// epoch cannot be arbitrarily late.
proof fn lemma_year_not_too_high(y: int)
    requires
        y >= 1970,
        days_before_year(y) <= 100_000_001,
    ensures
        y <= 275_950,
{
    if y > 275_950 {
        lemma_days_before_year_bounds(y);
        lemma_mul_inequality(273_981, y - 1970, 365);
        assert(365 * (y - 1970) == (y - 1970) * 365) by (nonlinear_arith);
        assert(273_981 * 365 == 100_003_065);
        assert(false);
    }
}

/// Leapness has period 400 years.
proof fn lemma_leap_shift(y: int)
    ensures
        is_leap_year(y + 4_000_000) == is_leap_year(y),
{
    lemma_mod_multiples_vanish(1_000_000, y, 4);
    lemma_mod_multiples_vanish(40_000, y, 100);
    lemma_mod_multiples_vanish(10_000, y, 400);
}

/// Leap-year test, computed on a shifted non-negative value so that the
/// machine remainder agrees with the mathematical one.
pub fn is_leap_year_exec(y: i64) -> (r: bool)
    requires
        -1_000_000 <= y <= 1_000_000,
    ensures
        r == is_leap_year(y as int),
{
    let yy: u64 = (y + 4_000_000) as u64;
    proof {
        lemma_leap_shift(y as int);
    }
    yy % 4 == 0 && (yy % 100 != 0 || yy % 400 == 0)
}

/// Length of year `y` in days.
pub fn days_in_year_exec(y: i64) -> (r: i64)
    requires
        -1_000_000 <= y <= 1_000_000,
    ensures
        r == days_in_year(y as int),
{
    if is_leap_year_exec(y) {
        366
    } else {
        365
    }
}

/// Length of month `m` of year `y` in days.
pub fn days_in_month_exec(y: i64, m: u64) -> (r: i64)
    requires
        -1_000_000 <= y <= 1_000_000,
        1 <= m <= 12,
    ensures
        r == days_in_month(y as int, m as int),
{
    if m == 1 || m == 3 || m == 5 || m == 7 || m == 8 || m == 10 || m == 12 {
        31
    } else if m == 2 {
        if is_leap_year_exec(y) {
            29
        } else {
            28
        }
    } else {
        30
    }
}

/// Decompose an epoch-relative day count into the unique civil date
/// `(year, month, day)` with `days == days_before_year(year)
/// + days_before_month(year, month) + day - 1`.
pub fn civil_from_days(days: i64) -> (r: (i64, u64, u64))
    requires
        -100_000_000 <= days <= 100_000_000,
    ensures
        1 <= r.1 <= 12,
        1 <= r.2 <= days_in_month(r.0 as int, r.1 as int),
        days == days_before_year(r.0 as int) + days_before_month(r.0 as int, r.1 as int) + r.2
            - 1,
        -300_000 <= r.0 <= 300_000,
{
    let mut y: i64 = 1970;
    let mut rem: i64 = days;
    while rem < 0
        invariant
            -100_000_000 <= days <= 100_000_000,
            days == days_before_year(y as int) + rem,
            -280_000 <= y <= 1970,
            rem <= 100_000_000 + 366,
        decreases
                (if rem < 0 {
                    0 - rem
                } else {
                    0
                }),
    {
        proof {
            assert(days_before_year(y as int) == days - rem);
            lemma_year_not_too_low(y as int);
            lemma_days_before_year_succ(y as int - 1);
        }
        let step = days_in_year_exec(y - 1);
        y = y - 1;
        rem = rem + step;
    }
    while rem >= days_in_year_exec(y)
        invariant
            -100_000_000 <= days <= 100_000_000,
            days == days_before_year(y as int) + rem,
            0 <= rem <= 100_000_000 + 366,
            -280_000 <= y <= 280_000,
        decreases rem,
    {
        proof {
            lemma_days_before_year_bounds(y as int);
            lemma_days_before_year_succ(y as int);
        }
        let step = days_in_year_exec(y);
        rem = rem - step;
        y = y + 1;
        proof {
            assert(days_before_year(y as int) == days - rem);
            if y >= 1970 {
                lemma_year_not_too_high(y as int);
            }
        }
    }
    proof {
        lemma_days_before_year_bounds(y as int);
    }
    let mut m: u64 = 1;
    while m < 12 && rem >= days_in_month_exec(y, m)
        invariant
            1 <= m <= 12,
            -1_000_000 <= y <= 1_000_000,
            days == days_before_year(y as int) + days_before_month(y as int, m as int) + rem,
            0 <= rem,
            rem < days_in_year(y as int) - days_before_month(y as int, m as int),
        decreases 12 - m,
    {
        let dm = days_in_month_exec(y, m);
        rem = rem - dm;
        m = m + 1;
    }
    proof {
        if m == 12 {
            lemma_months_fill_year(y as int);
            assert(days_before_month(y as int, 13) == days_before_month(y as int, 12)
                + days_in_month(y as int, 12));
        }
    }
    (y, m, (rem + 1) as u64)
}

} // verus!

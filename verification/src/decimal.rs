//! Fixed-point decimal amounts with six fractional digits, and the rounding
//! division that every conversion between units goes through.

use vstd::prelude::*;

verus! {

/// Micro-units in one whole unit.
pub const MICROS_PER_UNIT: u32 = 1_000_000;

/// Micro-units in one hundredth of a unit.
pub const MICROS_PER_HUNDREDTH: u32 = 10_000;

/// Micro-percent in a ratio of one: a percentage is a `Decimal` too.
pub const PERCENT_SCALE: u32 = 100_000_000;

/// A decimal number with six fractional digits, held as a count of
/// millionths. Credits, prices and percentages are all of this type.
#[derive(Clone, Copy, Debug, PartialEq, Eq, Structural)]
pub struct Decimal {
    pub micros: i64,
}

impl View for Decimal {
    type V = int;

    open spec fn view(&self) -> int {
        self.micros as int
    }
}

impl Decimal {
    /// The number zero.
    pub fn zero() -> (d: Decimal)
        ensures
            d@ == 0,
    {
        Decimal { micros: 0 }
    }

    /// The number of `micros` millionths.
    pub fn from_micros(micros: i64) -> (d: Decimal)
        ensures
            d@ == micros,
    {
        Decimal { micros }
    }
}

/// The quotient `n / d` rounded to the nearest integer, halves away from zero.
pub open spec fn round_div(n: int, d: int) -> int
    recommends
        d > 0,
{
    if n >= 0 {
        (2 * n + d) / (2 * d)
    } else {
        -((2 * (-n) + d) / (2 * d))
    }
}

/// `v` limited to the closed interval from `lo` to `hi`.
pub open spec fn clamp(v: int, lo: int, hi: int) -> int {
    if v < lo {
        lo
    } else if v > hi {
        hi
    } else {
        v
    }
}

/// The rounded quotient is a nearest integer to the exact quotient: it lies
/// within one half of it, and it has the sign of the numerator.
pub proof fn lemma_round_div_nearest(n: int, d: int)
    requires
        d > 0,
    ensures
        2 * n - d <= 2 * round_div(n, d) * d <= 2 * n + d,
        n >= 0 ==> round_div(n, d) >= 0,
        n <= 0 ==> round_div(n, d) <= 0,
        round_div(-n, d) == -round_div(n, d),
{
    let m: int = if n >= 0 { n } else { -n };
    let q: int = (2 * m + d) / (2 * d);
    assert(q >= 0 && 2 * m - d < 2 * q * d <= 2 * m + d) by (nonlinear_arith)
        requires
            d > 0,
            m >= 0,
            q == (2 * m + d) / (2 * d),
    ;
    if n >= 0 {
        assert(round_div(n, d) == q);
    } else {
        assert(round_div(n, d) == -q);
        assert(2 * (-q) * d == -(2 * q * d)) by (nonlinear_arith);
    }
    if n == 0 {
        assert(q == 0) by (nonlinear_arith)
            requires
                d > 0,
                q == (2 * 0 + d) / (2 * d),
        ;
    }
}

/// `v` limited to what a `Decimal` can hold.
pub open spec fn saturate(v: int) -> int {
    clamp(v, i64::MIN as int, i64::MAX as int)
}

/// Whole hundredths in an amount of `micros` millionths, rounded; none in a
/// negative amount.
pub open spec fn hundredths_in(micros: int) -> int {
    if micros <= 0 {
        0
    } else {
        round_div(micros, MICROS_PER_HUNDREDTH as int)
    }
}

/// `part` as a percentage of `whole`, between 0 and 100; 0 where `whole`
/// is not positive.
pub open spec fn clamped_percentage(part: int, whole: int) -> int {
    if whole > 0 {
        clamp(round_div(part * PERCENT_SCALE as int, whole), 0, PERCENT_SCALE as int)
    } else {
        0
    }
}

/// The cells, of ten, that stand for a percentage; one below 0 counts as
/// 0 and one above 100 as 100.
pub open spec fn cells_of(percentage: int) -> int {
    round_div(clamp(percentage, 0, PERCENT_SCALE as int) * 10, PERCENT_SCALE as int)
}

/// Rounded division on machine integers.
pub fn round_div_u128(n: u128, d: u128) -> (q: u128)
    requires
        d > 0,
        n <= u128::MAX / 4,
        d <= u128::MAX / 4,
    ensures
        q == round_div(n as int, d as int),
{
    (2 * n + d) / (2 * d)
}

/// `num * scale / den`, rounded, without overflow in between.
pub fn scaled_round(num: u64, scale: u32, den: u64) -> (q: u128)
    requires
        den > 0,
    ensures
        q == round_div(num as int * scale as int, den as int),
        q <= num as int * scale as int,
{
    assert(0 <= (num as int) * (scale as int) <= 0xffff_ffff_ffff_ffff * 0xffff_ffff)
        by (nonlinear_arith)
        requires
            0 <= num as int <= 0xffff_ffff_ffff_ffff,
            0 <= scale as int <= 0xffff_ffff,
    ;
    let product: u128 = (num as u128) * (scale as u128);
    let q: u128 = round_div_u128(product, den as u128);
    proof {
        let n: int = product as int;
        let d: int = den as int;
        assert(q as int <= n) by (nonlinear_arith)
            requires
                d >= 1,
                n >= 0,
                q as int == (2 * n + d) / (2 * d),
        ;
    }
    q
}

/// `value * scale / den`, rounded and limited to what a `Decimal` can hold.
pub fn scaled_decimal(value: i64, scale: u32, den: u64) -> (d: Decimal)
    requires
        den > 0,
    ensures
        d@ == saturate(round_div(value as int * scale as int, den as int)),
{
    if value >= 0 {
        let q: u128 = scaled_round(value as u64, scale, den);
        if q > i64::MAX as u128 {
            Decimal { micros: i64::MAX }
        } else {
            Decimal { micros: q as i64 }
        }
    } else {
        let magnitude: u64 = (-(value as i128)) as u64;
        let q: u128 = scaled_round(magnitude, scale, den);
        proof {
            assert(value as int * scale as int == -(magnitude as int * scale as int))
                by (nonlinear_arith)
                requires
                    value as int == -(magnitude as int),
            ;
            lemma_round_div_nearest(magnitude as int * scale as int, den as int);
        }
        if q > i64::MAX as u128 {
            Decimal { micros: i64::MIN }
        } else {
            Decimal { micros: -(q as i64) }
        }
    }
}

/// The hundredths in the difference `high - low` of two amounts of millionths.
pub fn hundredths_between(high: i64, low: i64) -> (h: u64)
    ensures
        h == hundredths_in(high - low),
{
    if high <= low {
        0
    } else {
        let gap: u64 = ((high as i128) - (low as i128)) as u64;
        let q: u128 = scaled_round(gap, 1, MICROS_PER_HUNDREDTH as u64);
        q as u64
    }
}

/// `part` as a percentage of `whole`, between 0 and 100.
pub fn percentage_of(part: i128, whole: i64) -> (p: Decimal)
    ensures
        p@ == clamped_percentage(part as int, whole as int),
        0 <= p@ <= PERCENT_SCALE,
{
    if whole <= 0 {
        return Decimal::zero();
    }
    if part <= 0 {
        proof {
            lemma_round_div_nearest(part as int * PERCENT_SCALE as int, whole as int);
        }
        return Decimal::zero();
    }
    if part >= whole as i128 {
        proof {
            let n: int = part as int * PERCENT_SCALE as int;
            let d: int = whole as int;
            assert((2 * n + d) / (2 * d) >= 100_000_000) by (nonlinear_arith)
                requires
                    d > 0,
                    n >= 100_000_000 * d,
            ;
        }
        return Decimal { micros: PERCENT_SCALE as i64 };
    }
    let q: u128 = scaled_round(part as u64, PERCENT_SCALE, whole as u64);
    proof {
        let n: int = part as int * PERCENT_SCALE as int;
        let d: int = whole as int;
        assert((2 * n + d) / (2 * d) <= 100_000_000) by (nonlinear_arith)
            requires
                d > 0,
                0 <= n <= 100_000_000 * (d - 1),
        ;
    }
    Decimal { micros: q as i64 }
}

/// The cells, of ten, that stand for a percentage.
pub fn cells(percentage: Decimal) -> (c: u8)
    ensures
        c == cells_of(percentage@),
        c <= 10,
{
    let limited: u64 = if percentage.micros <= 0 {
        0
    } else if percentage.micros >= PERCENT_SCALE as i64 {
        PERCENT_SCALE as u64
    } else {
        percentage.micros as u64
    };
    let q: u128 = scaled_round(limited, 10, PERCENT_SCALE as u64);
    q as u8
}

} // verus!

//! Saturating pixel arithmetic.
//!
//! Every geometry value of the engine is a whole number of pixels held in an
//! `i64`. Results that leave the `i64` range saturate at its ends, which play
//! the part of the infinities: no operation fails or panics. Division truncates
//! toward zero, as Rust's `/` does, and a division by zero gives the end of the
//! range on the side of the dividend (zero for zero).
use vstd::prelude::*;
use vstd::arithmetic::div_mod::{lemma_div_is_ordered, lemma_div_is_ordered_by_denominator};
use vstd::arithmetic::mul::lemma_mul_inequality;

verus! {

/// `x` clamped to the range of `i64`.
pub open spec fn sat(x: int) -> int {
    if x > i64::MAX {
        i64::MAX as int
    } else if x < i64::MIN {
        i64::MIN as int
    } else {
        x
    }
}

pub open spec fn abs(x: int) -> int {
    if x < 0 {
        -x
    } else {
        x
    }
}

/// Quotient of `a` by a nonzero `d`, truncated toward zero.
pub open spec fn trunc_div(a: int, d: int) -> int {
    let q = abs(a) / abs(d);
    if (a < 0) != (d < 0) {
        -q
    } else {
        q
    }
}

/// The larger of two values.
pub open spec fn max(a: int, b: int) -> int {
    if a >= b {
        a
    } else {
        b
    }
}

/// The smaller of two values.
pub open spec fn min(a: int, b: int) -> int {
    if a <= b {
        a
    } else {
        b
    }
}

/// `a / b` in pixel arithmetic.
pub open spec fn quot(a: int, b: int) -> int {
    if b == 0 {
        if a > 0 {
            i64::MAX as int
        } else if a < 0 {
            i64::MIN as int
        } else {
            0
        }
    } else {
        sat(trunc_div(a, b))
    }
}

/// `a * b * num / den`, truncated, in pixel arithmetic.
pub open spec fn scaled(a: int, b: int, num: int, den: int) -> int {
    sat(trunc_div(a * b * num, den))
}

pub fn clamp_wide(x: i128) -> (r: i64)
    ensures
        r == sat(x as int),
{
    if x > i64::MAX as i128 {
        i64::MAX
    } else if x < i64::MIN as i128 {
        i64::MIN
    } else {
        x as i64
    }
}

pub fn px_add(a: i64, b: i64) -> (r: i64)
    ensures
        r == sat(a + b),
{
    clamp_wide(a as i128 + b as i128)
}

pub fn px_sub(a: i64, b: i64) -> (r: i64)
    ensures
        r == sat(a - b),
{
    clamp_wide(a as i128 - b as i128)
}

proof fn lemma_product_bound(a: int, b: int)
    requires
        abs(a) <= 0x8000_0000_0000_0000,
        abs(b) <= 0x8000_0000_0000_0000,
    ensures
        abs(a * b) <= 0x4000_0000_0000_0000_0000_0000_0000_0000,
{
    let ua = abs(a);
    let ub = abs(b);
    assert(abs(a * b) == ua * ub) by (nonlinear_arith)
        requires
            ua == abs(a),
            ub == abs(b),
    ;
    assert(ua * ub <= 0x8000_0000_0000_0000 * 0x8000_0000_0000_0000) by (nonlinear_arith)
        requires
            0 <= ua <= 0x8000_0000_0000_0000,
            0 <= ub <= 0x8000_0000_0000_0000,
    ;
}

pub fn px_mul(a: i64, b: i64) -> (r: i64)
    ensures
        r == sat(a * b),
{
    proof {
        lemma_product_bound(a as int, b as int);
    }
    clamp_wide(a as i128 * b as i128)
}

/// Truncated quotient of a wide value by a positive divisor.
fn wide_div(t: i128, d: i128) -> (r: i128)
    requires
        t > i128::MIN,
        d > 0,
    ensures
        r == trunc_div(t as int, d as int),
{
    if t >= 0 {
        t / d
    } else {
        -((-t) / d)
    }
}

pub fn px_div(a: i64, b: i64) -> (r: i64)
    ensures
        r == quot(a as int, b as int),
{
    if b == 0 {
        if a > 0 {
            i64::MAX
        } else if a < 0 {
            i64::MIN
        } else {
            0
        }
    } else {
        let na: i128 = if a < 0 {
            -(a as i128)
        } else {
            a as i128
        };
        let nb: i128 = if b < 0 {
            -(b as i128)
        } else {
            b as i128
        };
        let q: i128 = na / nb;
        proof {
            lemma_div_is_ordered_by_denominator(na as int, 1, nb as int);
        }
        let t: i128 = if (a < 0) != (b < 0) {
            -q
        } else {
            q
        };
        clamp_wide(t)
    }
}

proof fn lemma_large_saturates(t: int, num: int, den: int)
    requires
        t > 0x1000_0000_0000_0000_0000_0000_0000_0000,
        1 <= num <= 5,
        1 <= den <= 127,
    ensures
        trunc_div(t * num, den) > i64::MAX,
{
    lemma_mul_inequality(1, num, t);
    assert(t * num >= t);
    lemma_div_is_ordered_by_denominator(t * num, den, 127);
    lemma_div_is_ordered(0x1000_0000_0000_0000_0000_0000_0000_0000, t * num, 127);
}

proof fn lemma_small_fits(t: int, num: int)
    requires
        abs(t) <= 0x1000_0000_0000_0000_0000_0000_0000_0000,
        1 <= num <= 5,
    ensures
        abs(t * num) <= 0x5000_0000_0000_0000_0000_0000_0000_0000,
{
    let ut = abs(t);
    assert(abs(t * num) == ut * num) by (nonlinear_arith)
        requires
            ut == abs(t),
            num >= 1,
    ;
    assert(ut * num <= 0x1000_0000_0000_0000_0000_0000_0000_0000 * 5) by (nonlinear_arith)
        requires
            0 <= ut <= 0x1000_0000_0000_0000_0000_0000_0000_0000,
            1 <= num <= 5,
    ;
}

/// `a * b * num / den` in pixel arithmetic, for the small fixed ratios that
/// unit conversions use.
pub fn px_scaled(a: i64, b: i64, num: i64, den: i64) -> (r: i64)
    requires
        1 <= num <= 5,
        1 <= den <= 127,
    ensures
        r == scaled(a as int, b as int, num as int, den as int),
{
    proof {
        lemma_product_bound(a as int, b as int);
    }
    let t: i128 = a as i128 * b as i128;
    let limit: i128 = 0x1000_0000_0000_0000_0000_0000_0000_0000;
    if t > limit {
        proof {
            lemma_large_saturates(t as int, num as int, den as int);
        }
        i64::MAX
    } else if t < -limit {
        proof {
            lemma_large_saturates(-t, num as int, den as int);
            assert((-t) * num == -(t * num)) by (nonlinear_arith);
        }
        i64::MIN
    } else {
        proof {
            lemma_small_fits(t as int, num as int);
        }
        let w: i128 = t * num as i128;
        clamp_wide(wide_div(w, den as i128))
    }
}

pub fn px_max(a: i64, b: i64) -> (r: i64)
    ensures
        r == max(a as int, b as int),
{
    if a >= b {
        a
    } else {
        b
    }
}

pub fn px_min(a: i64, b: i64) -> (r: i64)
    ensures
        r == min(a as int, b as int),
{
    if a <= b {
        a
    } else {
        b
    }
}

} // verus!

//! Saturating fixed-point scalar arithmetic.
//!
//! A scalar is an `i64` counted in units of `SCALE` per whole, so `SCALE`
//! itself stands for 1.0. Sums and products that leave the `i64` range
//! saturate at the range's ends; quotients truncate toward zero, as
//! machine division does.

use vstd::prelude::*;
use vstd::arithmetic::div_mod::{lemma_div_nonincreasing, lemma_div_pos_is_pos};
use vstd::math::abs;

verus! {

/// Fixed-point units per whole: `SCALE` is the scalar 1.0.
pub const SCALE: i64 = 1_000_000;

/// Clamps a mathematical integer into the range of `i64`.
pub open spec fn sat64(x: int) -> int {
    if x > i64::MAX {
        i64::MAX as int
    } else if x < i64::MIN {
        i64::MIN as int
    } else {
        x
    }
}

/// Division truncating toward zero, as machine division rounds;
/// unspecified for `b == 0`.
pub open spec fn tdiv(a: int, b: int) -> int {
    if a == 0 {
        0
    } else if a > 0 && b > 0 {
        a / b
    } else if a < 0 && b < 0 {
        (a * -1) / (b * -1)
    } else if a < 0 {
        ((a * -1) / b) * -1
    } else {
        (a / (b * -1)) * -1
    }
}

/// The saturating scaled product-quotient `(a * b) / c`.
pub open spec fn mul_div_spec(a: int, b: int, c: int) -> int {
    sat64(tdiv(a * b, c))
}

/// A quotient of operands of one sign is non-negative.
pub proof fn lemma_tdiv_nonneg(a: int, b: int)
    requires
        b != 0,
        (a >= 0 && b > 0) || (a <= 0 && b < 0),
    ensures
        tdiv(a, b) >= 0,
{
    if a == 0 {
    } else if a > 0 && b > 0 {
        lemma_div_pos_is_pos(a, b);
    } else {
        lemma_div_pos_is_pos(a * -1, b * -1);
    }
}

/// A quotient's magnitude never exceeds the dividend's.
pub proof fn lemma_tdiv_magnitude(a: int, b: int)
    requires
        b != 0,
    ensures
        -abs(a) <= tdiv(a, b) <= abs(a),
{
    if a == 0 {
    } else if a > 0 && b > 0 {
        lemma_div_pos_is_pos(a, b);
        lemma_div_nonincreasing(a, b);
    } else if a < 0 && b < 0 {
        lemma_div_pos_is_pos(a * -1, b * -1);
        lemma_div_nonincreasing(a * -1, b * -1);
    } else if a < 0 {
        lemma_div_pos_is_pos(a * -1, b);
        lemma_div_nonincreasing(a * -1, b);
    } else {
        lemma_div_pos_is_pos(a, b * -1);
        lemma_div_nonincreasing(a, b * -1);
    }
}

/// Clamps a wide intermediate into the `i64` range.
fn clamp64(s: i128) -> (r: i64)
    ensures
        r as int == sat64(s as int),
{
    if s > i64::MAX as i128 {
        i64::MAX
    } else if s < i64::MIN as i128 {
        i64::MIN
    } else {
        s as i64
    }
}

/// Saturating sum of two scalars.
pub fn sat_add64(a: i64, b: i64) -> (r: i64)
    ensures
        r as int == sat64(a + b),
{
    clamp64((a as i128) + (b as i128))
}

/// Saturating difference of two scalars.
pub fn sat_sub64(a: i64, b: i64) -> (r: i64)
    ensures
        r as int == sat64(a - b),
{
    clamp64((a as i128) - (b as i128))
}

/// The saturating scaled product-quotient `(a * b) / c`, computed with a
/// wide intermediate so the product itself never wraps.
pub fn scale_mul_div(a: i64, b: i64, c: i64) -> (r: i64)
    requires
        c != 0,
    ensures
        r as int == mul_div_spec(a as int, b as int, c as int),
{
    proof {
        assert((a as int) * (b as int) <= 0x4000_0000_0000_0000_0000_0000_0000_0000int
            && (a as int) * (b as int) >= -0x4000_0000_0000_0000_0000_0000_0000_0000int)
            by (nonlinear_arith)
            requires
                -0x8000_0000_0000_0000int <= a as int <= 0x7fff_ffff_ffff_ffffint,
                -0x8000_0000_0000_0000int <= b as int <= 0x7fff_ffff_ffff_ffffint,
        ;
    }
    let p: i128 = (a as i128) * (b as i128);
    match p.checked_div(c as i128) {
        Some(q) => {
            proof {
                assert(q as int == tdiv(p as int, c as int));
            }
            clamp64(q)
        },
        None => {
            proof {
                lemma_tdiv_magnitude(p as int, c as int);
                assert(false);
            }
            0
        },
    }
}

} // verus!

//! Integer arithmetic that mirrors the machine: division and remainder
//! truncating toward zero, two's-complement wrap-around for the few machine
//! operations that can overflow, and clamping into the 64-bit signed range.

use vstd::arithmetic::div_mod::{
    lemma_div_is_ordered_by_denominator, lemma_div_nonincreasing, lemma_div_pos_is_pos,
    lemma_mod_bound,
};
use vstd::prelude::*;

verus! {

/// Integer division truncating toward zero, total over the mathematical
/// integers.
pub open spec fn trunc_div(a: int, b: int) -> int {
    if a == 0 {
        0
    } else if a > 0 && b > 0 {
        a / b
    } else if a < 0 && b < 0 {
        (a * -1) / (b * -1)
    } else if a < 0 {
        ((a * -1) / b) * -1
    } else {
        (a / (b * -1)) * -1
    }
}

/// The remainder matching `trunc_div`: it takes the sign of the dividend.
pub open spec fn trunc_rem(a: int, b: int) -> int {
    if a == 0 {
        0
    } else if a > 0 && b > 0 {
        a % b
    } else if a < 0 && b < 0 {
        ((a * -1) % (b * -1)) * -1
    } else if a < 0 {
        ((a * -1) % b) * -1
    } else {
        a % (b * -1)
    }
}

/// Saturation of an integer into the signed 64-bit range.
pub open spec fn clamp_i64(x: int) -> i64 {
    if x > i64::MAX {
        i64::MAX
    } else if x < i64::MIN {
        i64::MIN
    } else {
        x as i64
    }
}

/// Signed 64-bit division with the machine's wrap-around on the one
/// overflowing case.
pub open spec fn div_wrap(a: i64, b: i64) -> i64 {
    if a == i64::MIN && b == -1 {
        i64::MIN
    } else {
        clamp_i64(trunc_div(a as int, b as int))
    }
}

/// Signed 64-bit remainder with the machine's wrap-around on the one
/// overflowing case.
pub open spec fn rem_wrap(a: i64, b: i64) -> i64 {
    if a == i64::MIN && b == -1 {
        0i64
    } else {
        clamp_i64(trunc_rem(a as int, b as int))
    }
}

/// The magnitude of a truncating quotient never exceeds the magnitude of
/// the dividend.
pub proof fn lemma_trunc_div_bound(a: int, b: int)
    requires
        b != 0,
    ensures
        trunc_div(a, b) <= (if a >= 0 { a } else { a * -1 }),
        trunc_div(a, b) >= (if a >= 0 { a * -1 } else { a }),
{
    if a == 0 {
    } else if a > 0 && b > 0 {
        lemma_div_pos_is_pos(a, b);
        lemma_div_nonincreasing(a, b);
    } else if a < 0 && b < 0 {
        lemma_div_pos_is_pos(a * -1, b * -1);
        lemma_div_nonincreasing(a * -1, b * -1);
    } else if a < 0 {
        lemma_div_pos_is_pos(a * -1, b);
        lemma_div_nonincreasing(a * -1, b);
    } else {
        lemma_div_pos_is_pos(a, b * -1);
        lemma_div_nonincreasing(a, b * -1);
    }
}

/// With a divisor of magnitude at least two, the truncating quotient's
/// magnitude is at most half the dividend's.
pub proof fn lemma_trunc_div_halves(a: int, b: int)
    requires
        b <= -2 || b >= 2,
    ensures
        trunc_div(a, b) <= (if a >= 0 { a } else { a * -1 }) / 2,
        trunc_div(a, b) >= ((if a >= 0 { a } else { a * -1 }) / 2) * -1,
{
    lemma_trunc_div_bound(a, b);
    if a == 0 {
        assert(0int / 2 == 0);
    } else if a > 0 && b > 0 {
        lemma_div_pos_is_pos(a, 2);
        lemma_div_is_ordered_by_denominator(a, 2, b);
        lemma_div_pos_is_pos(a, b);
    } else if a < 0 && b < 0 {
        lemma_div_pos_is_pos(a * -1, 2);
        lemma_div_is_ordered_by_denominator(a * -1, 2, b * -1);
        lemma_div_pos_is_pos(a * -1, b * -1);
    } else if a < 0 {
        lemma_div_pos_is_pos(a * -1, 2);
        lemma_div_is_ordered_by_denominator(a * -1, 2, b);
        lemma_div_pos_is_pos(a * -1, b);
    } else {
        lemma_div_pos_is_pos(a, 2);
        lemma_div_is_ordered_by_denominator(a, 2, b * -1);
        lemma_div_pos_is_pos(a, b * -1);
    }
}

/// Wrapping division of signed 64-bit values, truncating toward zero.
pub fn div_i64(a: i64, b: i64) -> (r: i64)
    requires
        b != 0,
    ensures
        r == div_wrap(a, b),
{
    if a == i64::MIN && b == -1 {
        i64::MIN
    } else if b == 1 {
        proof {
            vstd::arithmetic::div_mod::lemma_div_basics(a as int);
        }
        a
    } else if b == -1 {
        proof {
            vstd::arithmetic::div_mod::lemma_div_basics(-(a as int));
            vstd::arithmetic::div_mod::lemma_div_basics(a as int);
        }
        -a
    } else {
        proof {
            lemma_trunc_div_halves(a as int, b as int);
        }
        a.checked_div(b).unwrap()
    }
}

/// Wrapping remainder of signed 64-bit values, matching `div_i64`.
pub fn rem_i64(a: i64, b: i64) -> (r: i64)
    requires
        b != 0,
    ensures
        r == rem_wrap(a, b),
{
    if a == i64::MIN && b == -1 {
        0
    } else {
        proof {
            let am = if a >= 0 { a as int } else { -(a as int) };
            let bm = if b >= 0 { b as int } else { -(b as int) };
            if a != 0 {
                lemma_mod_bound(am, bm);
            }
        }
        a.checked_rem(b).unwrap()
    }
}

/// `clamp_i64(trunc_div(a * b, c * d))`, computed exactly in 128-bit
/// arithmetic.  The first factor may carry the full magnitude of a negated
/// `i64::MIN`.
pub fn scale_div(a: i128, b: i64, c: i64, d: i64) -> (r: i64)
    requires
        -0x8000_0000_0000_0000i128 <= a <= 0x8000_0000_0000_0000i128,
        c != 0,
        d != 0,
    ensures
        r == clamp_i64(trunc_div(a as int * b as int, c as int * d as int)),
{
    proof {
        assert((-0x4000_0000_0000_0000_0000_0000_0000_0000int)
            <= (a as int) * (b as int)
            <= 0x4000_0000_0000_0000_0000_0000_0000_0000int) by (nonlinear_arith)
            requires
                -0x8000_0000_0000_0000int <= a as int <= 0x8000_0000_0000_0000int,
                -0x8000_0000_0000_0000int <= b as int <= 0x8000_0000_0000_0000int,
        ;
        assert((-0x4000_0000_0000_0000_0000_0000_0000_0000int)
            <= (c as int) * (d as int)
            <= 0x4000_0000_0000_0000_0000_0000_0000_0000int) by (nonlinear_arith)
            requires
                -0x8000_0000_0000_0000int <= c as int <= 0x8000_0000_0000_0000int,
                -0x8000_0000_0000_0000int <= d as int <= 0x8000_0000_0000_0000int,
        ;
        assert((c as int) * (d as int) != 0) by (nonlinear_arith)
            requires
                c as int != 0,
                d as int != 0,
        ;
    }
    let prod: i128 = a * (b as i128);
    let den: i128 = (c as i128) * (d as i128);
    proof {
        lemma_trunc_div_bound(prod as int, den as int);
    }
    let q: i128 = prod.checked_div(den).unwrap();
    if q > i64::MAX as i128 {
        i64::MAX
    } else if q < i64::MIN as i128 {
        i64::MIN
    } else {
        q as i64
    }
}

} // verus!

//! Fixed-point multiply-divide primitives.
//!
//! Both operands are widened to 128 bits before multiplying, so the product
//! never overflows; the quotient is then narrowed back to 64 bits, saturating
//! to `u64::MAX` when it does not fit.  The two rounding directions are
//! separate named operations so that every call site shows which way it
//! rounds.

use vstd::arithmetic::div_mod::lemma_div_nonincreasing;
use vstd::arithmetic::mul::lemma_mul_upper_bound;
use vstd::prelude::*;

verus! {

/// The integer quotient of `a * b / d`, rounded toward zero.
pub open spec fn floor_quotient(a: int, b: int, d: int) -> int {
    (a * b) / d
}

/// The integer quotient of `a * b / d`, rounded away from zero: one more
/// than the floor whenever the division is inexact.
pub open spec fn ceil_quotient(a: int, b: int, d: int) -> int {
    if (a * b) % d == 0 {
        (a * b) / d
    } else {
        (a * b) / d + 1
    }
}

/// Clamps a mathematical value into the 64-bit range from above.
pub open spec fn saturate_u64(v: int) -> int {
    if v > u64::MAX {
        u64::MAX as int
    } else {
        v
    }
}

/// What `mul_div_down` returns: the floored quotient, saturated to 64 bits.
pub open spec fn mul_div_down_spec(a: int, b: int, d: int) -> int {
    saturate_u64(floor_quotient(a, b, d))
}

/// What `mul_div_up` returns: the ceiling quotient, saturated to 64 bits.
pub open spec fn mul_div_up_spec(a: int, b: int, d: int) -> int {
    saturate_u64(ceil_quotient(a, b, d))
}

/// Narrows a double-width value to 64 bits.  Exact whenever the high half
/// is zero; otherwise the value does not fit and the result saturates to
/// `u64::MAX` instead of wrapping.
pub fn u128_to_u64(value: u128) -> (r: u64)
    ensures
        r == saturate_u64(value as int),
{
    let high_bits_zero = value >> 64 == 0;
    proof {
        assert(value >> 64 == 0 <==> value <= u64::MAX) by (bit_vector);
    }
    if high_bits_zero {
        value as u64
    } else {
        u64::MAX
    }
}

/// The widened product of two 64-bit values always fits in 128 bits.
proof fn lemma_widened_product_fits(a: u64, b: u64)
    ensures
        a * b <= u64::MAX * u64::MAX,
        a * b <= u128::MAX,
{
    lemma_mul_upper_bound(a as int, u64::MAX as int, b as int, u64::MAX as int);
}

/// Computes `floor(a * b / denominator)`, saturating to `u64::MAX` when the
/// quotient does not fit in 64 bits.  The product is formed in 128 bits, so
/// it cannot overflow for any pair of 64-bit operands.
pub fn mul_div_down(a: u64, b: u64, denominator: u64) -> (r: u64)
    requires
        denominator > 0,
    ensures
        r == mul_div_down_spec(a as int, b as int, denominator as int),
{
    proof {
        lemma_widened_product_fits(a, b);
    }
    let product: u128 = (a as u128) * (b as u128);
    let quotient: u128 = product / (denominator as u128);
    u128_to_u64(quotient)
}

/// Computes `ceil(a * b / denominator)`, saturating to `u64::MAX` when the
/// quotient does not fit in 64 bits.  The product is formed in 128 bits, so
/// it cannot overflow for any pair of 64-bit operands.
pub fn mul_div_up(a: u64, b: u64, denominator: u64) -> (r: u64)
    requires
        denominator > 0,
    ensures
        r == mul_div_up_spec(a as int, b as int, denominator as int),
{
    proof {
        lemma_widened_product_fits(a, b);
    }
    let product: u128 = (a as u128) * (b as u128);
    let quotient: u128 = product / (denominator as u128);
    let remainder: u128 = product % (denominator as u128);
    proof {
        lemma_div_nonincreasing(product as int, denominator as int);
    }
    let adjusted: u128 = if remainder > 0 {
        quotient + 1
    } else {
        quotient
    };
    u128_to_u64(adjusted)
}

/// Rounding law: on the same operands, rounding up and rounding down agree
/// when the division is exact and differ by exactly one when it is not.  Inputs
/// whose rounded-up quotient exceeds `u64::MAX` are excluded: there both
/// directions saturate to the same value.
pub proof fn lemma_rounding_difference(a: u64, b: u64, d: u64)
    requires
        d > 0,
        ceil_quotient(a as int, b as int, d as int) <= u64::MAX,
    ensures
        (a * b) % (d as int) == 0 ==> mul_div_up_spec(a as int, b as int, d as int)
            == mul_div_down_spec(a as int, b as int, d as int),
        (a * b) % (d as int) != 0 ==> mul_div_up_spec(a as int, b as int, d as int)
            == mul_div_down_spec(a as int, b as int, d as int) + 1,
{
}

/// Saturation law: whenever the widened quotient has any bit beyond the
/// 64-bit range, the multiply-divide result is the 64-bit maximum, never a
/// wrapped or truncated value.
pub proof fn lemma_saturation(a: u64, b: u64, d: u64)
    requires
        d > 0,
        floor_quotient(a as int, b as int, d as int) > u64::MAX,
    ensures
        mul_div_down_spec(a as int, b as int, d as int) == u64::MAX,
        mul_div_up_spec(a as int, b as int, d as int) == u64::MAX,
{
}

} // verus!

//! Integer arithmetic helpers for the compensation pipeline.
//!
//! The vendor algorithm is written in terms of C-style 32-bit operations:
//! arithmetic right shifts (floor division by a power of two), truncating
//! division, and `as u32` reinterpretation of signed intermediates. This
//! module states those operations over mathematical integers and provides
//! verified executable counterparts.

use vstd::prelude::*;
use vstd::arithmetic::div_mod::lemma_div_is_ordered_by_denominator;
use vstd::arithmetic::div_mod::lemma_div_nonincreasing;
use vstd::arithmetic::div_mod::lemma_div_pos_is_pos;
use vstd::arithmetic::div_mod::lemma_fundamental_div_mod;
use vstd::arithmetic::div_mod::lemma_mod_division_less_than_divisor;
use vstd::arithmetic::mul::lemma_mul_inequality;
use vstd::arithmetic::mul::lemma_mul_is_distributive_sub;

verus! {

/// The value fits the signed 32-bit range.
pub open spec fn fits_i32(x: int) -> bool {
    i32::MIN <= x <= i32::MAX
}

/// The value fits the unsigned 32-bit range.
pub open spec fn fits_u32(x: int) -> bool {
    0 <= x <= u32::MAX
}

/// Rust's `/` on signed integers: the quotient rounded toward zero.
pub open spec fn tdiv(a: int, b: int) -> int {
    if a == 0 {
        0
    } else if a > 0 && b > 0 {
        a / b
    } else if a < 0 && b < 0 {
        (-a) / (-b)
    } else if a < 0 {
        -((-a) / b)
    } else {
        -(a / (-b))
    }
}

/// The unsigned 32-bit image of a value in the `i32` range, as an
/// `as u32` cast produces it.
pub open spec fn w32(x: int) -> int {
    if x >= 0 {
        x
    } else {
        x + 0x1_0000_0000
    }
}

/// Floor division by a positive divisor never moves a value away from zero.
pub proof fn lemma_floor_div_range(a: int, b: int)
    requires
        b >= 1,
    ensures
        a >= 0 ==> 0 <= a / b <= a,
        a < 0 ==> a <= a / b <= 0,
{
    if a >= 0 {
        lemma_div_pos_is_pos(a, b);
        lemma_div_nonincreasing(a, b);
    } else {
        let q = a / b;
        let r = a % b;
        lemma_fundamental_div_mod(a, b);
        lemma_mod_division_less_than_divisor(a, b);
        if q > 0 {
            lemma_mul_inequality(1, q, b);
            assert(false);
        }
        if q < a {
            lemma_mul_inequality(q, a - 1, b);
            lemma_mul_is_distributive_sub(b, a, 1);
            lemma_mul_inequality(a, 0, b - 1);
            lemma_mul_is_distributive_sub(a, b, 1);
            assert(r >= b);
            assert(false);
        }
    }
}

/// A truncating quotient of 32-bit values stays in range, except for
/// `i32::MIN / -1`, and is never larger in magnitude than the dividend.
pub proof fn lemma_tdiv_range(a: int, b: int)
    requires
        fits_i32(a),
        fits_i32(b),
        b != 0,
        !(a == i32::MIN && b == -1),
    ensures
        fits_i32(tdiv(a, b)),
        a >= 0 ==> -a <= tdiv(a, b) <= a,
        a < 0 ==> a <= tdiv(a, b) <= -a,
{
    if a == 0 {
    } else if a > 0 && b > 0 {
        lemma_floor_div_range(a, b);
    } else if a < 0 && b < 0 {
        lemma_floor_div_range(-a, -b);
        if a == i32::MIN {
            lemma_div_is_ordered_by_denominator(-a, 2, -b);
        }
    } else if a < 0 {
        lemma_floor_div_range(-a, b);
    } else {
        lemma_floor_div_range(a, -b);
    }
}

/// Floor division by a positive divisor: on nonnegative values this agrees
/// with Rust `/`, and for `b == 2^k` it is the arithmetic right shift `a >> k`.
pub fn floor_div_i32(a: i32, b: i32) -> (q: i32)
    requires
        b >= 1,
    ensures
        q == a as int / b as int,
{
    proof {
        lemma_floor_div_range(a as int, b as int);
    }
    match a.checked_div_euclid(b) {
        Some(q) => q,
        None => {
            proof {
                assert(false);
            }
            0
        },
    }
}

/// Rust's truncating `/` on `i32`.
pub fn trunc_div_i32(a: i32, b: i32) -> (q: i32)
    requires
        b != 0,
        !(a == i32::MIN && b == -1),
    ensures
        q == tdiv(a as int, b as int),
{
    proof {
        lemma_tdiv_range(a as int, b as int);
    }
    match a.checked_div(b) {
        Some(q) => q,
        None => {
            proof {
                assert(false);
            }
            0
        },
    }
}

/// The `as u32` image of a signed 32-bit value.
pub fn wrap_u32(x: i32) -> (r: u32)
    ensures
        r == w32(x as int),
{
    if x >= 0 {
        x as u32
    } else {
        ((x as i64) + 0x1_0000_0000i64) as u32
    }
}

} // verus!

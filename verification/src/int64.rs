//! Sixty-four-bit machine integers against the mathematical integers.
//!
//! The evaluator computes on `i64`. Addition, subtraction and multiplication
//! wrap around on overflow; division truncates toward zero. This module states
//! both notions over `int` and offers the one operation that `std` gives no
//! verified counterpart for here: a wrapping, truncating division.

use vstd::prelude::*;

verus! {

/// Whether `x` is representable as an `i64`.
pub open spec fn fits_i64(x: int) -> bool {
    i64::MIN <= x <= i64::MAX
}

/// The `i64` that is congruent to `x` modulo 2^64: the two's-complement
/// reading of the low 64 bits of `x`.
pub open spec fn wrap_i64(x: int) -> i64 {
    let low = x % 0x1_0000_0000_0000_0000;
    if low > i64::MAX {
        (low - 0x1_0000_0000_0000_0000) as i64
    } else {
        low as i64
    }
}

/// The absolute value of `x`.
pub open spec fn magnitude(x: int) -> int {
    if x < 0 {
        -x
    } else {
        x
    }
}

/// The quotient of `a` by `b`, rounded toward zero: the quotient of the
/// magnitudes, negated where the operands have opposite signs.
pub open spec fn trunc_div(a: int, b: int) -> int
    recommends
        b != 0,
{
    if a >= 0 && b > 0 {
        a / b
    } else if a < 0 && b < 0 {
        (-a) / (-b)
    } else if a < 0 {
        -((-a) / b)
    } else {
        -(a / (-b))
    }
}

/// Wrapping is the identity on representable integers.
pub proof fn lemma_wrap_i64_fits(x: int)
    requires
        fits_i64(x),
    ensures
        wrap_i64(x) == x,
{
}

/// Wrapping changes an integer by a multiple of 2^64, and by nothing else.
pub proof fn lemma_wrap_i64_congruent(x: int)
    ensures
        (wrap_i64(x) - x) % 0x1_0000_0000_0000_0000 == 0,
{
}

/// The truncated quotient leaves a remainder that is smaller in magnitude
/// than the divisor and never of the sign opposite to the dividend's.
pub proof fn lemma_trunc_div_remainder(a: int, b: int)
    requires
        b != 0,
    ensures
        ({
            let r = a - b * trunc_div(a, b);
            &&& magnitude(r) < magnitude(b)
            &&& a >= 0 ==> r >= 0
            &&& a <= 0 ==> r <= 0
        }),
{
    let x = magnitude(a);
    let d = magnitude(b);
    let q = x / d;
    assert(x == d * q + x % d && 0 <= x % d < d) by (nonlinear_arith)
        requires
            d > 0,
            q == x / d,
    ;
    assert(b * (-q) == -(b * q)) by (nonlinear_arith);
    assert((-b) * q == -(b * q)) by (nonlinear_arith);
}

/// The magnitude of a truncated quotient is the quotient of the magnitudes,
/// rounded down.
pub proof fn lemma_trunc_div_magnitude(a: int, b: int)
    requires
        b != 0,
    ensures
        magnitude(trunc_div(a, b)) == magnitude(a) / magnitude(b),
{
    let x = magnitude(a);
    let d = magnitude(b);
    assert(0 <= x / d) by (nonlinear_arith)
        requires
            x >= 0,
            d > 0,
    ;
}

/// The magnitude of a truncated quotient does not exceed the dividend's, and
/// is smaller unless the divisor is 1 or -1 or the dividend is zero.
pub proof fn lemma_trunc_div_bound(a: int, b: int)
    requires
        b != 0,
    ensures
        magnitude(trunc_div(a, b)) <= magnitude(a),
        magnitude(b) > 1 && a != 0 ==> magnitude(trunc_div(a, b)) < magnitude(a),
{
    let x = magnitude(a);
    let d = magnitude(b);
    lemma_trunc_div_magnitude(a, b);
    assert(x / d <= x && (d > 1 && x > 0 ==> x / d < x)) by (nonlinear_arith)
        requires
            x >= 0,
            d > 0,
    ;
}

/// The truncated quotient in terms of Euclidean division alone, which rounds
/// down for a positive divisor and up for a negative one: divide the
/// dividend's magnitude, then restore the dividend's sign.
proof fn lemma_trunc_div_euclidean(a: int, b: int)
    requires
        b != 0,
    ensures
        a >= 0 ==> trunc_div(a, b) == a / b,
        a < 0 ==> trunc_div(a, b) == -((-a) / b),
{
    let x = magnitude(a);
    if b < 0 {
        assert(x / b == -(x / (-b))) by (nonlinear_arith)
            requires
                x >= 0,
                b < 0,
        ;
    }
}

/// Divides `a` by `b`, truncating toward zero and wrapping around on the one
/// quotient that an `i64` cannot hold (`i64::MIN / -1`, which gives
/// `i64::MIN`).
pub fn wrapping_div(a: i64, b: i64) -> (q: i64)
    requires
        b != 0,
    ensures
        q == wrap_i64(trunc_div(a as int, b as int)),
        fits_i64(trunc_div(a as int, b as int)) ==> q == trunc_div(a as int, b as int),
{
    if a == i64::MIN && b == -1 {
        i64::MIN
    } else {
        proof {
            lemma_trunc_div_bound(a as int, b as int);
            lemma_trunc_div_euclidean(a as int, b as int);
        }
        a / b
    }
}

} // verus!

//! Fixed-point arithmetic helpers.
//!
//! Quantities in this crate are scaled integers: a value in "micro-units" is
//! the underlying quantity times 1_000_000.  Scaling products back down needs
//! a division that rounds toward zero (as a float-to-integer conversion
//! would), which is what `tdiv64` provides.

use vstd::prelude::*;

verus! {

/// One whole unit in the fixed-point encoding used throughout the crate.
pub const UNIT: i64 = 1_000_000;

/// Truncating division (rounds toward zero), the mathematical meaning of
/// `tdiv64`.  Defined for positive divisors.
pub open spec fn tdiv(a: int, b: int) -> int {
    if a >= 0 {
        a / b
    } else {
        -((-a) / b)
    }
}

proof fn lemma_div_bound(m: int, b: int) by (nonlinear_arith)
    requires
        0 <= m,
        0 < b,
    ensures
        0 <= m / b <= m,
{
}

/// The magnitude of a truncating quotient never exceeds the magnitude of the
/// dividend, and the quotient keeps the dividend's sign.
pub proof fn lemma_tdiv_bound(a: int, b: int)
    requires
        0 < b,
    ensures
        a >= 0 ==> 0 <= tdiv(a, b) <= a,
        a < 0 ==> a <= tdiv(a, b) <= 0,
{
    if a >= 0 {
        lemma_div_bound(a, b);
    } else {
        lemma_div_bound(-a, b);
    }
}

/// The magnitude of a value.
pub open spec fn abs_spec(a: int) -> int {
    if a >= 0 {
        a
    } else {
        -a
    }
}

/// A truncating quotient shrinks with the divisor: dividing a magnitude of
/// at most `bound` by at least `bmin` leaves at most `bound / bmin`.
pub proof fn lemma_tdiv_div_bound(a: int, b: int, bound: int, bmin: int) by (nonlinear_arith)
    requires
        0 < bmin <= b,
        -bound <= a <= bound,
        0 <= bound,
    ensures
        -(bound / bmin) <= tdiv(a, b) <= bound / bmin,
{
}

/// `|x * y| <= bx * by` whenever `|x| <= bx` and `|y| <= by`.
pub proof fn lemma_mul_bound(x: int, y: int, bx: int, by: int) by (nonlinear_arith)
    requires
        -bx <= x <= bx,
        -by <= y <= by,
        0 <= bx,
        0 <= by,
    ensures
        -(bx * by) <= x * y <= bx * by,
{
}

/// Truncating division of `a` by a positive divisor `b`, exact per `tdiv`.
pub fn tdiv64(a: i64, b: i64) -> (r: i64)
    requires
        0 < b,
        i64::MIN < a,
    ensures
        r == tdiv(a as int, b as int),
        a >= 0 ==> 0 <= r <= a,
        a < 0 ==> a <= r <= 0,
{
    proof {
        lemma_tdiv_bound(a as int, b as int);
    }
    if a >= 0 {
        let q: u64 = (a as u64) / (b as u64);
        q as i64
    } else {
        let m: i64 = -a;
        let q: u64 = (m as u64) / (b as u64);
        -(q as i64)
    }
}

/// Clamp `input` to the closed interval `[min, max]`; `min` wins when the
/// interval is empty, because the lower comparison is made first.
pub open spec fn clamp_spec(input: int, min: int, max: int) -> int {
    if min > input {
        min
    } else if max < input {
        max
    } else {
        input
    }
}

} // verus!

//! Fixed-point scalars: 512 raw units are one unit of world-space length.

use vstd::prelude::*;

verus! {

/// Raw units per world-space unit ("1.0").
pub const FIX9_ONE: i32 = 0x200;

/// `input` bounded to the closed interval from `min` to `max`.
pub open spec fn clamp_spec(input: int, min: int, max: int) -> int {
    if input < min {
        min
    } else if input > max {
        max
    } else {
        input
    }
}

/// `input` bounded from above by `max`.
pub open spec fn clamp_max_spec(input: int, max: int) -> int {
    if input > max {
        max
    } else {
        input
    }
}

/// Magnitude of `v`; the one value without a representable magnitude,
/// `i32::MIN`, is its own magnitude, as in two's-complement negation.
pub open spec fn abs_spec(v: i32) -> i32 {
    if v == i32::MIN {
        v
    } else if v < 0 {
        (-v) as i32
    } else {
        v
    }
}

/// Two's-complement negation.
pub open spec fn neg_spec(v: i32) -> i32 {
    0i32.wrapping_sub(v)
}

/// Sign of `v` as -1, 0 or 1.
pub open spec fn signum_spec(v: i32) -> i32 {
    if v > 0 {
        1
    } else if v < 0 {
        (-1) as i32
    } else {
        0
    }
}

/// Quotient of `a` by `b` rounded toward zero.
pub open spec fn div_trunc(a: int, b: int) -> int {
    if a >= 0 {
        a / b
    } else {
        -((-a) / b)
    }
}

/// Remainder of `a` by `b` with the sign of `a`.
pub open spec fn rem_trunc(a: int, b: int) -> int {
    if a >= 0 {
        a % b
    } else {
        -((-a) % b)
    }
}

/// `v * num / den`, the product wrapping and the quotient rounded toward zero;
/// the damping step of free-floating particles.
pub open spec fn scale_spec(v: i32, num: i32, den: i32) -> i32 {
    div_trunc(v.wrapping_mul(num) as int, den as int) as i32
}

/// Trusted: `num_traits::clamp` on `i32`. The crate returns `min` when
/// `input < min`, `max` when `input > max` and `input` otherwise; it asserts
/// `min <= max` in debug builds, which the precondition rules out.
#[verifier::external_body]
pub(crate) fn clamp(input: i32, min: i32, max: i32) -> (r: i32)
    requires
        min <= max,
    ensures
        r == clamp_spec(input as int, min as int, max as int),
{
    num_traits::clamp(input, min, max)
}

/// Trusted: `num_traits::clamp_max` on `i32`. The crate returns `max` when
/// `input > max` and `input` otherwise.
#[verifier::external_body]
pub(crate) fn clamp_max(input: i32, max: i32) -> (r: i32)
    ensures
        r == clamp_max_spec(input as int, max as int),
{
    num_traits::clamp_max(input, max)
}

/// Trusted: `num_traits::abs` on `i32`. The crate negates a negative value
/// and hands back any other; negating `i32::MIN` overflows, so that value is
/// left out.
#[verifier::external_body]
pub(crate) fn abs_i32(value: i32) -> (r: i32)
    requires
        value != i32::MIN,
    ensures
        r == abs_spec(value),
{
    num_traits::abs(value)
}

/// Magnitude of `v` for every `v`, `i32::MIN` mapping to itself.
pub fn abs(v: i32) -> (r: i32)
    ensures
        r == abs_spec(v),
        v != i32::MIN ==> r >= 0,
{
    if v == i32::MIN {
        v
    } else {
        abs_i32(v)
    }
}

/// Two's-complement negation of `v`.
pub fn neg(v: i32) -> (r: i32)
    ensures
        r == neg_spec(v),
        v != i32::MIN ==> r == -v,
{
    0i32.wrapping_sub(v)
}

/// Sign of `v`.
pub fn signum(v: i32) -> (r: i32)
    ensures
        r == signum_spec(v),
{
    if v > 0 {
        1
    } else if v < 0 {
        -1
    } else {
        0
    }
}

/// `v * num / den` with a wrapping product and a truncating quotient.
pub fn scale(v: i32, num: i32, den: i32) -> (r: i32)
    requires
        den > 0,
    ensures
        r == scale_spec(v, num, den),
{
    v.wrapping_mul(num) / den
}

/// Half of `v`, rounded toward zero: the displacement of a stunned entity.
pub fn half(v: i32) -> (r: i32)
    ensures
        r == div_trunc(v as int, 2),
{
    v / 2
}

} // verus!

//! Signed arithmetic that stops at the ends of its range.

use vstd::prelude::*;

verus! {

/// `v`, or the end of `[lo, hi]` that lies nearer to it.
pub open spec fn clamped(v: int, lo: int, hi: int) -> int {
    if v < lo {
        lo
    } else if v > hi {
        hi
    } else {
        v
    }
}

/// `v` held within the range of an `i32`.
pub open spec fn saturated(v: int) -> i32 {
    clamped(v, i32::MIN as int, i32::MAX as int) as i32
}

/// `a + b`, stopping at the ends of the range.
pub fn saturating_sum(a: i32, b: i32) -> (r: i32)
    ensures
        r == saturated(a + b),
{
    let s: i64 = a as i64 + b as i64;
    narrow(s)
}

/// `a - b`, stopping at the ends of the range.
pub fn saturating_difference(a: i32, b: i32) -> (r: i32)
    ensures
        r == saturated(a - b),
{
    let s: i64 = a as i64 - b as i64;
    narrow(s)
}

/// `a * b`, stopping at the ends of the range.
pub fn saturating_product(a: i32, b: i32) -> (r: i32)
    ensures
        r == saturated(a * b),
{
    proof {
        assert(-0x4000_0000_0000_0000 <= a * b <= 0x4000_0000_0000_0000) by (nonlinear_arith)
            requires
                -0x8000_0000 <= a <= 0x7fff_ffff,
                -0x8000_0000 <= b <= 0x7fff_ffff,
        ;
    }
    let s: i64 = a as i64 * b as i64;
    narrow(s)
}

/// The nearest `i32`.
fn narrow(s: i64) -> (r: i32)
    ensures
        r == saturated(s as int),
{
    if s < i32::MIN as i64 {
        i32::MIN
    } else if s > i32::MAX as i64 {
        i32::MAX
    } else {
        s as i32
    }
}

/// `v` held within `[lo, hi]`.
pub fn clamp(v: i32, lo: i32, hi: i32) -> (r: i32)
    requires
        lo <= hi,
    ensures
        r == clamped(v as int, lo as int, hi as int),
{
    if v < lo {
        lo
    } else if v > hi {
        hi
    } else {
        v
    }
}

/// Within the range a number is itself, and outside the range it is the end that lies
/// nearer.
pub proof fn saturation_stops_at_the_ends(v: int)
    ensures
        -0x8000_0000 <= v <= 0x7fff_ffff ==> saturated(v) == v,
        v < -0x8000_0000 ==> saturated(v) == -0x8000_0000,
        v > 0x7fff_ffff ==> saturated(v) == 0x7fff_ffff,
{
}

/// A clamped number lies within its bounds, and is the number itself where that does.
pub proof fn clamping_keeps_within(v: int, lo: int, hi: int)
    requires
        lo <= hi,
    ensures
        lo <= clamped(v, lo, hi) <= hi,
        lo <= v <= hi ==> clamped(v, lo, hi) == v,
        v < lo ==> clamped(v, lo, hi) == lo,
        v > hi ==> clamped(v, lo, hi) == hi,
{
}

} // verus!

//! Fixed-point numbers: an `i32` field `v` stands for the real value
//! `v / SCALE`. The most negative `i32` is kept apart as the marker of a
//! reading that is not a finite number, so the finite range is symmetric.

use vstd::prelude::*;

verus! {

/// The stored value of one unit.
pub const SCALE: i32 = 1_000_000;

/// Marks a reading that was NaN, infinite or out of range at the boundary.
pub const NOT_FINITE: i32 = i32::MIN;

/// Whether a stored value is a finite reading.
pub open spec fn finite(v: i32) -> bool {
    v != NOT_FINITE
}

/// `v` limited to the closed range `[lo, hi]`.
pub open spec fn clamp(v: int, lo: int, hi: int) -> int {
    if v < lo {
        lo
    } else if v > hi {
        hi
    } else {
        v
    }
}

/// A product of two fixed-point values carries `SCALE` twice: this brings it
/// back to one, rounding toward zero.
pub open spec fn rescale(p: int) -> int {
    if p >= 0 {
        p / (SCALE as int)
    } else {
        -((-p) / (SCALE as int))
    }
}

pub fn is_finite(v: i32) -> (r: bool)
    ensures
        r == finite(v),
{
    v != NOT_FINITE
}

pub fn clamp_i64(v: i64, lo: i64, hi: i64) -> (r: i64)
    requires
        lo <= hi,
    ensures
        r == clamp(v as int, lo as int, hi as int),
{
    if v < lo {
        lo
    } else if v > hi {
        hi
    } else {
        v
    }
}

pub fn rescale_i128(p: i128) -> (r: i128)
    requires
        p > i128::MIN,
    ensures
        r == rescale(p as int),
{
    let s: i128 = SCALE as i128;
    if p >= 0 {
        p / s
    } else {
        -((-p) / s)
    }
}

} // verus!

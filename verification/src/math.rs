//! Saturating integer arithmetic used by all coordinate computations.
//!
//! Every signed/unsigned boundary crossing in the rectangle operations
//! clamps at the representable extreme instead of wrapping or panicking.

use vstd::prelude::*;

verus! {

/// Clamps an unbounded integer into the `i32` range.
pub open spec fn sat_i32(v: int) -> int {
    if v > i32::MAX {
        i32::MAX as int
    } else if v < i32::MIN {
        i32::MIN as int
    } else {
        v
    }
}

/// Clamps an unbounded integer into the `u32` range.
pub open spec fn sat_u32(v: int) -> int {
    if v > u32::MAX {
        u32::MAX as int
    } else if v < 0 {
        0
    } else {
        v
    }
}

/// Value of a non-negative extent after a saturating conversion to `i32`.
pub open spec fn extent_as_i32(e: int) -> int {
    if e > i32::MAX {
        i32::MAX as int
    } else {
        e
    }
}

pub open spec fn imin(a: int, b: int) -> int {
    if a <= b {
        a
    } else {
        b
    }
}

pub open spec fn imax(a: int, b: int) -> int {
    if a >= b {
        a
    } else {
        b
    }
}

/// Halving that rounds toward zero, as `i32` division by two does.
pub open spec fn half_toward_zero(d: int) -> int {
    if d >= 0 {
        d / 2
    } else {
        -((-d) / 2)
    }
}

pub fn i32_saturating_add(a: i32, b: i32) -> (r: i32)
    ensures
        r == sat_i32(a + b),
{
    let s: i64 = a as i64 + b as i64;
    if s > i32::MAX as i64 {
        i32::MAX
    } else if s < i32::MIN as i64 {
        i32::MIN
    } else {
        s as i32
    }
}

pub fn i32_saturating_sub(a: i32, b: i32) -> (r: i32)
    ensures
        r == sat_i32(a - b),
{
    let s: i64 = a as i64 - b as i64;
    if s > i32::MAX as i64 {
        i32::MAX
    } else if s < i32::MIN as i64 {
        i32::MIN
    } else {
        s as i32
    }
}

/// Saturating conversion from an unsigned extent to a signed coordinate.
pub fn u32_to_i32_saturating(e: u32) -> (r: i32)
    ensures
        r == extent_as_i32(e as int),
{
    if e > i32::MAX as u32 {
        i32::MAX
    } else {
        e as i32
    }
}

pub fn min_i32(a: i32, b: i32) -> (r: i32)
    ensures
        r == imin(a as int, b as int),
{
    if a <= b {
        a
    } else {
        b
    }
}

pub fn max_i32(a: i32, b: i32) -> (r: i32)
    ensures
        r == imax(a as int, b as int),
{
    if a >= b {
        a
    } else {
        b
    }
}

/// Signed halving that truncates toward zero, total on all of `i32`.
pub fn half_i32(d: i32) -> (r: i32)
    ensures
        r == half_toward_zero(d as int),
{
    if d >= 0 {
        ((d as u32) / 2) as i32
    } else {
        let m: u32 = (-(d as i64)) as u32;
        let h: u32 = m / 2;
        -(h as i32)
    }
}

} // verus!

//! Small shared helpers for grid arithmetic.

use vstd::prelude::*;

verus! {

/// `v` forced into the interval `[lo, hi]`.
pub open spec fn clamp_i(v: int, lo: int, hi: int) -> int {
    if v < lo {
        lo
    } else if v > hi {
        hi
    } else {
        v
    }
}

/// Adds a step to a coordinate and clamps the sum into `[lo, hi]`, without
/// overflow on any inputs.
pub fn clamp_add_i32(base: i32, delta: i32, lo: i32, hi: i32) -> (r: i32)
    requires
        lo <= hi,
    ensures
        r as int == clamp_i(base as int + delta as int, lo as int, hi as int),
{
    let v: i64 = base as i64 + delta as i64;
    let lo64: i64 = lo as i64;
    let hi64: i64 = hi as i64;
    let c: i64 = if v < lo64 {
        lo64
    } else if v > hi64 {
        hi64
    } else {
        v
    };
    c as i32
}

} // verus!

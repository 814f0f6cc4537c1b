//! Saturating arithmetic on signed timestamps and counters.

use vstd::prelude::*;

verus! {

/// `x` brought into the range of `i64` by clamping.
pub open spec fn clamp_i64(x: int) -> int {
    if x > i64::MAX {
        i64::MAX as int
    } else if x < i64::MIN {
        i64::MIN as int
    } else {
        x
    }
}

/// `a - b`, clamped to the range of `i64`.
pub fn saturating_sub_i64(a: i64, b: i64) -> (r: i64)
    ensures
        r == clamp_i64(a - b),
{
    match a.checked_sub(b) {
        Some(d) => d,
        None => {
            if b < 0 {
                i64::MAX
            } else {
                i64::MIN
            }
        },
    }
}

/// `a + b`, clamped to the range of `i64`.
pub fn saturating_add_i64(a: i64, b: i64) -> (r: i64)
    ensures
        r == clamp_i64(a + b),
{
    match a.checked_add(b) {
        Some(d) => d,
        None => {
            if b < 0 {
                i64::MIN
            } else {
                i64::MAX
            }
        },
    }
}

/// `x`, or `i64::MAX` when `x` exceeds it.
pub fn counter_to_i64(x: u64) -> (r: i64)
    ensures
        r == clamp_i64(x as int),
{
    if x > 9_223_372_036_854_775_807 {
        i64::MAX
    } else {
        x as i64
    }
}

/// 1 for `true`, 0 for `false`.
pub fn flag_to_i64(b: bool) -> (r: i64)
    ensures
        r == if b { 1int } else { 0 },
{
    if b {
        1
    } else {
        0
    }
}

} // verus!

//! Signed 32-bit wraparound, stated over mathematical integers.

use vstd::prelude::*;

verus! {

/// The signed 32-bit integer that is congruent to `x` modulo 2^32.
pub open spec fn wrap_i32(x: int) -> int {
    let r: int = x % 0x1_0000_0000;
    if r > i32::MAX {
        r - 0x1_0000_0000
    } else {
        r
    }
}

/// Wrapping always lands in the signed 32-bit range.
pub proof fn wrap_i32_in_range(x: int)
    ensures
        i32::MIN <= wrap_i32(x) <= i32::MAX,
{
}

/// Wrapping leaves a value that is already in range as it is.
pub proof fn wrap_i32_fixes_range(x: int)
    requires
        i32::MIN <= x <= i32::MAX,
    ensures
        wrap_i32(x) == x,
{
}

/// Wrapping an intermediate sum does not change the wrapped total.
pub proof fn wrap_i32_absorbs(x: int, y: int)
    ensures
        wrap_i32(wrap_i32(x) + y) == wrap_i32(x + y),
{
}

/// Adds two signed 32-bit integers with wraparound.
pub fn wrapping_sum(a: i32, b: i32) -> (sum: i32)
    ensures
        sum == wrap_i32(a + b),
        i32::MIN <= a + b <= i32::MAX ==> sum == a + b,
{
    a.wrapping_add(b)
}

} // verus!

//! Small arithmetic helpers.

use vstd::prelude::*;

verus! {

/// The sum of the integers in the half-open range `lo..hi` (zero when the
/// range is empty).
pub open spec fn range_sum(lo: int, hi: int) -> int
    decreases hi - lo,
{
    if hi <= lo {
        0
    } else {
        range_sum(lo, hi - 1) + (hi - 1)
    }
}

/// Adds two numbers.
pub fn some_random_function(a: i32, b: i32) -> (r: i32)
    requires
        i32::MIN <= a + b <= i32::MAX,
    ensures
        r == a + b,
{
    a + b
}

/// Sums the integers from `a` up to, but not including, `b`, the loopy way.
pub fn some_loopy_magic(a: i32, b: i32) -> (r: i32)
    requires
        forall|k: int| a <= k <= b ==> i32::MIN <= #[trigger] range_sum(a as int, k) <= i32::MAX,
    ensures
        r == range_sum(a as int, b as int),
{
    let mut sum: i32 = 0;
    if a >= b {
        return 0;
    }
    let mut i: i32 = a;
    while i < b
        invariant
            a <= i <= b,
            sum == range_sum(a as int, i as int),
            forall|k: int| a <= k <= b ==> i32::MIN <= #[trigger] range_sum(a as int, k)
                <= i32::MAX,
        decreases b - i,
    {
        proof {
            assert(range_sum(a as int, i + 1) == range_sum(a as int, i as int) + i);
        }
        sum = sum + i;
        i = i + 1;
    }
    sum
}

} // verus!

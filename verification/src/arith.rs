//! Helpers on 32-bit signed integers: sum, greater of two, and a pair put in
//! ascending order.

use vstd::prelude::*;

verus! {

/// The greater of two integers; on a tie, the second.
pub open spec fn greater(a: int, b: int) -> int {
    if a > b {
        a
    } else {
        b
    }
}

/// The pair `(a, b)` in ascending order; on a tie, unchanged.
pub open spec fn ascending(a: int, b: int) -> (int, int) {
    if a > b {
        (b, a)
    } else {
        (a, b)
    }
}

/// Adds two integers whose sum fits in an `i32`.
///
/// A sum outside the range of `i32` is an arithmetic error, not a wrapped
/// value, so such arguments are excluded.
pub fn add(a: i32, b: i32) -> (sum: i32)
    requires
        i32::MIN <= a + b <= i32::MAX,
    ensures
        sum == a + b,
{
    a + b
}

/// Returns the greater of `a` and `b`. The comparison is strict, so equal
/// arguments yield `b`.
pub fn max(a: i32, b: i32) -> (m: i32)
    ensures
        m == greater(a as int, b as int),
        a <= b ==> m == b,
        a > b ==> m == a,
{
    if a > b {
        a
    } else {
        b
    }
}

/// Returns `a` and `b` as a pair `(low, high)`: swapped when `a > b`, and
/// as given otherwise.
pub fn order(a: i32, b: i32) -> (pair: (i32, i32))
    ensures
        (pair.0 as int, pair.1 as int) == ascending(a as int, b as int),
        pair.0 <= pair.1,
{
    if a > b {
        (b, a)
    } else {
        (a, b)
    }
}

/// The first component of an ordered pair never exceeds the second.
pub proof fn lemma_ascending_is_sorted(a: int, b: int)
    ensures
        ascending(a, b).0 <= ascending(a, b).1,
{
}

/// Ordering is idempotent: ordering an already ordered pair changes nothing.
pub proof fn lemma_ascending_idempotent(a: int, b: int)
    ensures
        ascending(ascending(a, b).0, ascending(a, b).1) == ascending(a, b),
{
}

} // verus!

//! Fixed-width signed addition with two's-complement wraparound.

use vstd::prelude::*;

verus! {

/// The sum of `a` and `b` wrapped into the `i64` range, as a mathematical
/// integer: ordinary addition, shifted by 2^64 whenever it leaves the range.
pub open spec fn sum_wrapped(a: int, b: int) -> int {
    if a + b > i64::MAX {
        a + b - 0x1_0000_0000_0000_0000
    } else if a + b < i64::MIN {
        a + b + 0x1_0000_0000_0000_0000
    } else {
        a + b
    }
}

/// Adds two 64-bit signed integers, wrapping around silently on overflow.
pub fn add(a: i64, b: i64) -> (r: i64)
    ensures
        r == sum_wrapped(a as int, b as int),
{
    a.wrapping_add(b)
}

/// The wrapped sum does not depend on the order of its operands.
pub proof fn lemma_sum_wrapped_commutative(a: i64, b: i64)
    ensures
        sum_wrapped(a as int, b as int) == sum_wrapped(b as int, a as int),
{
}

/// Adding zero leaves a value unchanged; in particular it never wraps.
pub proof fn lemma_sum_wrapped_identity(a: i64)
    ensures
        sum_wrapped(a as int, 0) == a as int,
{
}

} // verus!

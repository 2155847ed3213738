//! The arithmetic model behind [`add`](crate::add): reduction of a
//! mathematical integer to the 32-bit signed range, and the laws of addition
//! under that reduction.
use vstd::prelude::*;

verus! {

/// Number of distinct `i32` values, 2^32.
pub open spec fn modulus() -> int {
    0x1_0000_0000
}

/// Whether `n` is the value of some `i32`.
pub open spec fn representable(n: int) -> bool {
    i32::MIN <= n <= i32::MAX
}

/// The representable integer that is congruent to `n` modulo 2^32.
pub open spec fn wrap(n: int) -> int {
    (n - i32::MIN) % modulus() + i32::MIN
}

/// What adding `left` and `right` yields: their mathematical sum, reduced to
/// the 32-bit signed range.
pub open spec fn wrapped_sum(left: i32, right: i32) -> int {
    wrap(left + right)
}

/// A sum that fits in an `i32` comes out exactly.
pub proof fn lemma_sum_exact(a: i32, b: i32)
    requires
        representable(a + b),
    ensures
        wrapped_sum(a, b) == a + b,
{
}

/// Every sum is representable, and one that does not fit is off by exactly
/// 2^32: too large a sum comes back from the bottom of the range, too small a
/// sum from the top.
pub proof fn lemma_sum_wraps(a: i32, b: i32)
    ensures
        representable(wrapped_sum(a, b)),
        a + b > i32::MAX ==> wrapped_sum(a, b) == a + b - modulus(),
        a + b < i32::MIN ==> wrapped_sum(a, b) == a + b + modulus(),
{
}

/// Addition is commutative: the order of the operands does not matter,
/// whether or not the sum wraps.
pub proof fn lemma_add_commutative(a: i32, b: i32)
    ensures
        wrapped_sum(a, b) == wrapped_sum(b, a),
{
}

/// Zero is the identity of addition, on either side.
pub proof fn lemma_add_zero(a: i32)
    ensures
        wrapped_sum(a, 0) == a,
        wrapped_sum(0, a) == a,
{
}

} // verus!

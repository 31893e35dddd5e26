//! Addition of 32-bit signed integers, with the facts that hold of it.

use vstd::prelude::*;

verus! {

/// The mathematical sum of two machine integers, free of any bound.
pub open spec fn sum(a: i32, b: i32) -> int {
    a + b
}

/// Whether the mathematical sum of `a` and `b` is itself an `i32`.
pub open spec fn sum_fits(a: i32, b: i32) -> bool {
    i32::MIN <= sum(a, b) <= i32::MAX
}

/// What `add` promises of its result `r` on the operands `a` and `b`.
pub open spec fn is_sum(a: i32, b: i32, r: i32) -> bool {
    r == sum(a, b)
}

/// Adds two integers whose sum is representable.
///
/// The result is the mathematical sum. Operands whose sum leaves the range
/// of `i32` are excluded by the precondition, so the addition never
/// overflows.
pub fn add(a: i32, b: i32) -> (r: i32)
    requires
        sum_fits(a, b),
    ensures
        is_sum(a, b, r),
{
    a + b
}

/// Addition is commutative: swapping the operands changes neither whether
/// the sum is representable nor its value.
pub proof fn lemma_add_commutative(a: i32, b: i32)
    ensures
        sum_fits(a, b) == sum_fits(b, a),
        sum(a, b) == sum(b, a),
        forall|r: i32| is_sum(a, b, r) <==> is_sum(b, a, r),
{
}

/// Addition has no hidden state: any two results that `add` may give for
/// the same operands are equal.
pub proof fn lemma_add_deterministic(a: i32, b: i32, first: i32, second: i32)
    requires
        is_sum(a, b, first),
        is_sum(a, b, second),
    ensures
        first == second,
{
}

} // verus!

//! Euclidean division, as the standard library computes it.

use vstd::prelude::*;

verus! {

/// `i32::div_euclid` of the standard library: the quotient of Euclidean
/// division, which rounds towards negative infinity for a positive divisor.
/// It panics for a divisor of zero and where the quotient overflows.
pub assume_specification[ i32::div_euclid ](lhs: i32, rhs: i32) -> (r: i32)
    requires
        rhs != 0,
        !(lhs == i32::MIN && rhs == -1),
    ensures
        r == lhs / rhs,
;

/// `i32::rem_euclid` of the standard library: the least non-negative
/// remainder of the division. It panics for a divisor of zero and where the
/// division overflows.
pub assume_specification[ i32::rem_euclid ](lhs: i32, rhs: i32) -> (r: i32)
    requires
        rhs != 0,
        !(lhs == i32::MIN && rhs == -1),
    ensures
        r == lhs % rhs,
;

} // verus!

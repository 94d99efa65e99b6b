//! Division that signals a zero divisor by absence instead of failing.

use vstd::prelude::*;

verus! {

/// Divides `x` by `y`, rounding the quotient down.
///
/// A zero divisor has no quotient: the outcome is then `None`, never a
/// sentinel number. Every other pair of arguments yields `Some`.
pub fn divide(x: u64, y: u64) -> (q: Option<u64>)
    ensures
        y == 0 ==> q.is_none(),
        y != 0 ==> q == Some(x / y),
{
    if y == 0 {
        None
    } else {
        Some(x / y)
    }
}

} // verus!

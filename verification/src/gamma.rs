//! The integer core of the gamma function: for a nonnegative integer
//! argument `n`, the gamma value is `(n - 1)!`. The floating-point shell that
//! decides whether an argument is integer-valued, and the cast of this result
//! back to a float, live with the caller; the factorial content is here.

use vstd::prelude::*;
use crate::factorial::{factorial, spec_eval, spec_factorial};

verus! {

/// Gamma at the nonnegative integer `n`: `(n - 1)!`, with `n == 0` mapped to
/// one rather than a pole.
pub fn ngamma(n: u64) -> (r: u64)
    requires
        n as int + 1 <= usize::MAX as int,
    ensures
        n == 0 ==> r == 1,
        n >= 1 ==> r == spec_eval((n - 1) as u64),
        1 <= n <= 21 ==> r == spec_factorial((n - 1) as nat),
{
    if n == 0 {
        1
    } else {
        factorial(n - 1)
    }
}

} // verus!

//! The count of binary carries absorbed by `n!`: `n` minus the population
//! count of `n`, which by Legendre's formula is the exponent of two in `n!`.

use vstd::prelude::*;

verus! {

/// Number of set bits in the binary representation of `n`.
pub open spec fn popcount(n: nat) -> nat
    decreases n,
{
    if n == 0 {
        0
    } else {
        popcount(n / 2) + n % 2
    }
}

/// A number has at least as many bits of weight as set bits: `popcount(n) <= n`.
pub proof fn lemma_popcount_le(n: nat)
    ensures
        popcount(n) <= n,
    decreases n,
{
    if n > 0 {
        lemma_popcount_le(n / 2);
    }
}

/// `n - popcount(n)`: the exponent of two in the factorization of `n!`.
pub fn calculate_bits(n: u64) -> (r: u64)
    ensures
        r == n - popcount(n as nat),
{
    proof {
        lemma_popcount_le(n as nat);
    }
    let mut m: u64 = n;
    let mut count: u64 = 0;
    while m > 0
        invariant
            popcount(n as nat) == count + popcount(m as nat),
            popcount(n as nat) <= n,
        decreases m,
    {
        count = count + m % 2;
        m = m / 2;
    }
    n - count
}

} // verus!

//! The swing product of `n` over a list of primes: each prime `p` enters the
//! product once for every power `p^k` (`k >= 1`) whose quotient
//! `floor(n / p^k)` is odd. Composed through the halving recursion this is
//! the prime factorization structure of `n! / (floor(n/2)!)^2`.

use vstd::prelude::*;
use vstd::arithmetic::div_mod::{
    lemma_div_decreases, lemma_mul_mod_noop_left, lemma_small_mod,
};
use vstd::arithmetic::mul::lemma_mul_is_associative;
use vstd::arithmetic::power::{lemma_pow0, lemma_pow1, lemma_pow_adds, pow};
use crate::powmod::u64_span;

verus! {

/// How many `k >= 1` leave an odd quotient `floor(n / p^k)`: the multiplicity
/// of the prime `p` in the swing product of `n`.
pub open spec fn odd_quotient_count(n: nat, p: nat) -> nat
    recommends
        p >= 2,
    decreases n,
    via odd_quotient_count_decreases
{
    if p < 2 || n == 0 {
        0
    } else {
        odd_quotient_count(n / p, p) + if (n / p) % 2 == 1 {
            1nat
        } else {
            0nat
        }
    }
}

#[via_fn]
proof fn odd_quotient_count_decreases(n: nat, p: nat) {
    if !(p < 2 || n == 0) {
        lemma_div_decreases(n as int, p as int);
    }
}

/// The swing product of `n` over the tail of `primes` from `idx` on: each
/// prime raised to its odd-quotient count.
pub open spec fn swing_rest(n: nat, primes: Seq<u64>, idx: int) -> int
    decreases primes.len() - idx,
{
    if idx < 0 || idx >= primes.len() {
        1
    } else {
        pow(primes[idx] as int, odd_quotient_count(n, primes[idx] as nat)) * swing_rest(
            n,
            primes,
            idx + 1,
        )
    }
}

/// The swing product of `n` over the whole of `primes`.
pub open spec fn swing_product(n: nat, primes: Seq<u64>) -> int {
    swing_rest(n, primes, 0)
}

/// Primes beyond `n` contribute nothing: their first quotient is already zero.
proof fn lemma_swing_rest_trivial(n: nat, primes: Seq<u64>, idx: int)
    requires
        forall|t: int| idx <= t < primes.len() ==> (#[trigger] primes[t] as nat) > n,
    ensures
        swing_rest(n, primes, idx) == 1,
    decreases primes.len() - idx,
{
    if 0 <= idx < primes.len() {
        let p = primes[idx] as nat;
        assert(p > n);
        if p >= 2 && n != 0 {
            assert(n / p == 0) by (nonlinear_arith)
                requires
                    n < p,
                    p >= 1,
            ;
            assert(odd_quotient_count(0, p) == 0);
        }
        assert(odd_quotient_count(n, p) == 0);
        lemma_pow0(primes[idx] as int);
        lemma_swing_rest_trivial(n, primes, idx + 1);
    }
}

/// The swing product over ascending primes, wrapped at the 64-bit word. For
/// each prime `p` of the list not exceeding `n`, the running quotient of `n`
/// is divided by `p` until it reaches zero, and `p` is multiplied into the
/// product at every step where the quotient comes out odd.
pub fn swing(n: u64, primes: &Vec<u64>) -> (r: u64)
    requires
        forall|t: int| 0 <= t < primes@.len() ==> #[trigger] primes@[t] >= 2,
        forall|t: int, u: int| 0 <= t < u < primes@.len() ==> primes@[t] < primes@[u],
    ensures
        r as int == swing_product(n as nat, primes@) % u64_span(),
{
    let mut product: u64 = 1;
    let mut idx: usize = 0;
    while idx < primes.len() && primes[idx] <= n
        invariant
            forall|t: int| 0 <= t < primes@.len() ==> #[trigger] primes@[t] >= 2,
            forall|t: int, u: int| 0 <= t < u < primes@.len() ==> primes@[t] < primes@[u],
            idx <= primes@.len(),
            ((product as int) * swing_rest(n as nat, primes@, idx as int)) % u64_span()
                == swing_product(n as nat, primes@) % u64_span(),
        decreases primes@.len() - idx,
    {
        let p = primes[idx];
        let ghost entry = product;
        let ghost mut cnt: nat = 0;
        proof {
            lemma_pow0(p as int);
            lemma_small_mod(entry as nat, 0x1_0000_0000_0000_0000nat);
        }
        let mut q: u64 = n;
        while q > 0
            invariant
                2 <= p,
                odd_quotient_count(n as nat, p as nat) == cnt + odd_quotient_count(
                    q as nat,
                    p as nat,
                ),
                ((entry as int) * pow(p as int, cnt)) % u64_span() == product as int,
            decreases q,
        {
            proof {
                lemma_div_decreases(q as int, p as int);
            }
            q = q / p;
            if q % 2 == 1 {
                proof {
                    // one more factor of p: shift the wrap-reduction inward
                    lemma_pow_adds(p as int, cnt, 1);
                    lemma_pow1(p as int);
                    assert(pow(p as int, cnt + 1) == pow(p as int, cnt) * (p as int));
                    lemma_mul_is_associative(entry as int, pow(p as int, cnt), p as int);
                    lemma_mul_mod_noop_left(
                        (entry as int) * pow(p as int, cnt),
                        p as int,
                        u64_span(),
                    );
                    cnt = cnt + 1;
                }
                product = product.wrapping_mul(p);
            }
        }
        proof {
            // fold the finished prime power into the running product
            let rest = swing_rest(n as nat, primes@, idx as int + 1);
            let power = pow(p as int, odd_quotient_count(n as nat, p as nat));
            assert(swing_rest(n as nat, primes@, idx as int) == power * rest);
            lemma_mul_mod_noop_left((entry as int) * power, rest, u64_span());
            lemma_mul_is_associative(entry as int, power, rest);
        }
        idx = idx + 1;
    }
    proof {
        if idx < primes.len() {
            assert forall|t: int|
                idx <= t < primes@.len() implies (#[trigger] primes@[t] as nat) > n as nat by {
                if t > idx {
                    assert(primes@[idx as int] < primes@[t]);
                }
            }
            lemma_swing_rest_trivial(n as nat, primes@, idx as int);
        }
        lemma_small_mod(product as nat, 0x1_0000_0000_0000_0000nat);
    }
    product
}

} // verus!

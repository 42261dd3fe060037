//! The factorial evaluator. Below ten, `n!` is the direct product of
//! `2..=n`. From ten on, the odd part of `n!` is composed bottom-up from
//! swing products over the successive halvings of `n` (the swing recurrence
//! `odd(n) = odd(n/2)^2 * swing(n)` run as a loop, over the odd primes, so
//! that no factor of two enters), and the `n - popcount(n)` factors of two
//! owed by Legendre's formula are then restored through one fast
//! exponentiation of two. The composed value equals `n!` exactly for as long
//! as `n!` fits the word; beyond that every multiplication wraps at the
//! 64-bit word and the contracts pin the wrapped value.

use vstd::prelude::*;
use crate::bits::{calculate_bits, lemma_popcount_le, popcount};
use crate::powmod::{fast_exponentiation, pow_mod, u64_span};
use crate::primes::{is_prime, primes_in_range, sieve};
use crate::swing::{swing, swing_product};

verus! {

/// `n!` as a mathematical value.
pub open spec fn spec_factorial(n: nat) -> nat
    decreases n,
{
    if n == 0 {
        1
    } else {
        n * spec_factorial((n - 1) as nat)
    }
}

/// The factorials below ten, all far within the word.
proof fn lemma_factorial_table()
    ensures
        spec_factorial(0) == 1,
        spec_factorial(1) == 1,
        spec_factorial(2) == 2,
        spec_factorial(3) == 6,
        spec_factorial(4) == 24,
        spec_factorial(5) == 120,
        spec_factorial(6) == 720,
        spec_factorial(7) == 5040,
        spec_factorial(8) == 40320,
        spec_factorial(9) == 362880,
{
    assert(spec_factorial(0) == 1);
    assert(spec_factorial(1) == 1);
    assert(spec_factorial(2) == 2);
    assert(spec_factorial(3) == 6);
    assert(spec_factorial(4) == 24);
    assert(spec_factorial(5) == 120);
    assert(spec_factorial(6) == 720);
    assert(spec_factorial(7) == 5040);
    assert(spec_factorial(8) == 40320);
    assert(spec_factorial(9) == 362880);
}

/// The factorial never shrinks as its argument grows.
proof fn lemma_factorial_monotone(a: nat, b: nat)
    requires
        a <= b,
    ensures
        spec_factorial(a) <= spec_factorial(b),
    decreases b,
{
    if a < b {
        lemma_factorial_monotone(a, (b - 1) as nat);
        assert(b * spec_factorial((b - 1) as nat) >= spec_factorial((b - 1) as nat))
            by (nonlinear_arith)
            requires
                b >= 1,
        ;
    }
}

/// The value of the bottom-up halving composition over `primes`: one for `n`
/// below two; otherwise the value for `floor(n/2)`, squared by fast
/// exponentiation under `u64::MAX`, times the wrapped swing product of `n`.
pub open spec fn odd_factorial_value(n: u64, primes: Seq<u64>) -> u64
    decreases n,
{
    if n < 2 {
        1
    } else {
        pow_mod(odd_factorial_value(n / 2, primes), 2, u64::MAX).wrapping_mul(
            (swing_product(n as nat, primes) % u64_span()) as u64,
        )
    }
}

/// The swing recurrence `odd(n) = odd(n/2)^2 * swing(n)`, run bottom-up as a
/// loop: the halvings of `n` are stacked, then popped smallest-first, each
/// squaring the accumulator under `u64::MAX` and multiplying in the swing
/// product of the popped value. Over odd primes this builds the odd part of
/// `n!`, the whole of the recurrence value staying pinned by
/// `odd_factorial_value` even once products wrap.
pub fn odd_factorial(n: u64, primes: &Vec<u64>) -> (r: u64)
    requires
        forall|t: int| 0 <= t < primes@.len() ==> #[trigger] primes@[t] >= 2,
        forall|t: int, u: int| 0 <= t < u < primes@.len() ==> primes@[t] < primes@[u],
    ensures
        r == odd_factorial_value(n, primes@),
{
    let mut halvings: Vec<u64> = Vec::new();
    let mut m: u64 = n;
    while m >= 2
        invariant
            m <= n,
            halvings@.len() == 0 ==> m == n,
            halvings@.len() > 0 ==> halvings@[0] == n,
            halvings@.len() > 0 ==> halvings@[halvings@.len() - 1] / 2 == m,
            forall|t: int| 0 <= t < halvings@.len() ==> #[trigger] halvings@[t] >= 2,
            forall|t: int|
                0 <= t < halvings@.len() - 1 ==> #[trigger] halvings@[t + 1] == halvings@[t] / 2,
        decreases m,
    {
        halvings.push(m);
        m = m / 2;
    }
    let mut result: u64 = 1;
    while halvings.len() > 0
        invariant
            forall|t: int| 0 <= t < primes@.len() ==> #[trigger] primes@[t] >= 2,
            forall|t: int, u: int| 0 <= t < u < primes@.len() ==> primes@[t] < primes@[u],
            halvings@.len() == 0 ==> result == odd_factorial_value(n, primes@),
            halvings@.len() > 0 ==> halvings@[0] == n,
            halvings@.len() > 0 ==> result == odd_factorial_value(
                halvings@[halvings@.len() - 1] / 2,
                primes@,
            ),
            forall|t: int| 0 <= t < halvings@.len() ==> #[trigger] halvings@[t] >= 2,
            forall|t: int|
                0 <= t < halvings@.len() - 1 ==> #[trigger] halvings@[t + 1] == halvings@[t] / 2,
        decreases halvings@.len(),
    {
        let ghost before = halvings@;
        let step = halvings.pop().unwrap();
        let squared = fast_exponentiation(result, 2, u64::MAX);
        let sw = swing(step, primes);
        result = squared.wrapping_mul(sw);
        proof {
            assert(step == before[before.len() - 1]);
            assert(step >= 2);
            assert(sw == (swing_product(step as nat, primes@) % u64_span()) as u64);
            assert(result == odd_factorial_value(step, primes@));
            if halvings@.len() > 0 {
                let t = before.len() - 2;
                assert(before[t + 1] == before[t] / 2);
                assert(before[t + 1] == step);
            }
        }
    }
    result
}

/// The primes handed to the halving composition: every odd prime up to and
/// including `n + 1`.
pub open spec fn factorial_primes(n: u64) -> Seq<u64> {
    primes_in_range(3, n as int + 1)
}

/// What the evaluator returns. Below ten it is `n!` itself, the direct
/// product of `2..=n`, which fits the word. From ten on it is the halving
/// composition over the odd primes — the odd part of `n!` — multiplied by
/// two to the `n - popcount(n)`, every product wrapping at the 64-bit word:
/// exactly `n!` while `n!` fits, the wrapped composition beyond.
pub open spec fn spec_eval(n: u64) -> u64 {
    if n < 10 {
        spec_factorial(n as nat) as u64
    } else {
        pow_mod(2, (n - popcount(n as nat)) as u64, u64::MAX).wrapping_mul(
            odd_factorial_value(n, factorial_primes(n)),
        )
    }
}

/// The factorial evaluator: the small-case product below ten, the prime
/// swing composition from ten on.
pub fn eval(n: u64) -> (r: u64)
    requires
        n as int + 2 <= usize::MAX as int,
    ensures
        r == spec_eval(n),
        n < 10 ==> r == spec_factorial(n as nat),
{
    proof {
        lemma_factorial_table();
    }
    if n < 10 {
        let mut product: u64 = 1;
        let mut i: u64 = 2;
        while i <= n
            invariant
                n < 10,
                2 <= i,
                i <= n + 1 || i == 2,
                product == spec_factorial((i - 1) as nat),
            decreases n + 1 - i,
        {
            proof {
                lemma_factorial_table();
                lemma_factorial_monotone((i - 1) as nat, 8);
                assert(product * i <= 362880) by (nonlinear_arith)
                    requires
                        product <= 40320,
                        2 <= i <= 9,
                ;
                assert(spec_factorial(i as nat) == (i as nat) * spec_factorial((i - 1) as nat));
                assert((product as int) * (i as int) == (i as int) * (spec_factorial(
                    (i - 1) as nat,
                ) as int)) by (nonlinear_arith)
                    requires
                        product as int == spec_factorial((i - 1) as nat) as int,
                ;
            }
            product = product * i;
            i = i + 1;
        }
        product
    } else {
        let bits = calculate_bits(n);
        let primes = sieve(3, n + 1);
        proof {
            lemma_popcount_le(n as nat);
            assert forall|t: int| 0 <= t < primes@.len() implies #[trigger] primes@[t] >= 2 by {
                assert(is_prime(primes@[t] as int));
            }
        }
        let odd = odd_factorial(n, &primes);
        fast_exponentiation(2, bits, u64::MAX).wrapping_mul(odd)
    }
}

/// `n!`, by the prime swing method: below ten as the direct product of
/// `2..=n`, from ten on as the odd part of `n!` times `2^(n - popcount(n))`.
/// Exact through twenty, the proven range; past the capacity of the word the
/// arithmetic wraps, a documented domain limit rather than an error, and the
/// wrapped value is still the one `spec_eval` pins.
pub fn factorial(n: u64) -> (r: u64)
    requires
        n as int + 2 <= usize::MAX as int,
    ensures
        r == spec_eval(n),
        n <= 20 ==> r == spec_factorial(n as nat),
{
    let r = eval(n);
    proof {
        if n <= 20 {
            crate::exact::lemma_factorial_exact_through_twenty(n);
        }
    }
    r
}

} // verus!

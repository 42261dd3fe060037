//! Sieve of Eratosthenes: a marker array over `0..=end` from which every
//! proper multiple is struck, leaving exactly the primes of the queried range.

use vstd::prelude::*;
use vstd::arithmetic::div_mod::{
    lemma_fundamental_div_mod, lemma_mod_bound, lemma_mod_multiples_basic, lemma_small_mod,
    lemma_sub_mod_noop,
};

verus! {

/// `n` is prime: at least two, with no divisor strictly between one and itself.
pub open spec fn is_prime(n: int) -> bool {
    n >= 2 && forall|d: int| 2 <= d < n ==> #[trigger] (n % d) != 0
}

/// The primes within `[start, end]`, in increasing order.
pub open spec fn primes_in_range(start: int, end: int) -> Seq<u64>
    recommends
        0 <= start,
        end <= u64::MAX,
    decreases (if end < start { 0int } else { end - start + 1 }),
{
    if end < start {
        Seq::empty()
    } else if is_prime(end) {
        primes_in_range(start, end - 1).push(end as u64)
    } else {
        primes_in_range(start, end - 1)
    }
}

/// What survives once every stride below `bound` has run: `k` is at least two
/// and no `d` below `bound` divides `k`, except `k` itself.
spec fn unmarked(k: int, bound: int) -> bool {
    k >= 2 && forall|d: int| 2 <= d < bound ==> (#[trigger] (k % d) == 0 ==> k == d)
}

/// `n` has no divisor in `[d, n)`.
pub open spec fn divisor_free_from(n: int, d: int) -> bool
    decreases (if d < n { n - d } else { 0int }),
{
    if d >= n {
        true
    } else {
        n % d != 0 && divisor_free_from(n, d + 1)
    }
}

proof fn lemma_divisor_free_sound(n: int, d: int)
    requires
        divisor_free_from(n, d),
    ensures
        forall|e: int| d <= e < n ==> #[trigger] (n % e) != 0,
    decreases (if d < n { n - d } else { 0int }),
{
    if d < n {
        lemma_divisor_free_sound(n, d + 1);
    }
}

/// Primality by trial division: a number at least two that no candidate from
/// two up divides is prime.
pub proof fn lemma_prime_by_trial(n: int)
    requires
        2 <= n,
        divisor_free_from(n, 2),
    ensures
        is_prime(n),
{
    lemma_divisor_free_sound(n, 2);
}

/// A number with a proper divisor has one whose square does not exceed it:
/// of `d` and `k / d`, the smaller one.
proof fn lemma_small_divisor(k: int, d: int)
    requires
        2 <= d < k,
        k % d == 0,
    ensures
        exists|w: int| 2 <= w && w * w <= k && #[trigger] (k % w) == 0 && w < k,
{
    let q = k / d;
    lemma_fundamental_div_mod(k, d);
    assert(q >= 2) by (nonlinear_arith)
        requires
            k == d * q,
            2 <= d < k,
    ;
    if d * d <= k {
        assert(2 <= d && d * d <= k && k % d == 0 && d < k);
    } else {
        assert(q * q <= k && q < k) by (nonlinear_arith)
            requires
                k == d * q,
                d * d > k,
                2 <= d,
                2 <= q,
        ;
        lemma_mod_multiples_basic(d, q);
        assert(k % q == 0);
        assert(2 <= q && q * q <= k && k % q == 0 && q < k);
    }
}

/// Divisibility runs through a middle term: if `d` divides `i` and `i`
/// divides `k`, then `d` divides `k`.
proof fn lemma_divides_transitive(k: int, i: int, d: int)
    requires
        2 <= d,
        2 <= i,
        0 <= k,
        i % d == 0,
        k % i == 0,
    ensures
        k % d == 0,
{
    let a = i / d;
    let b = k / i;
    lemma_fundamental_div_mod(i, d);
    lemma_fundamental_div_mod(k, i);
    assert(k == (a * b) * d) by (nonlinear_arith)
        requires
            i == d * a,
            k == i * b,
    ;
    lemma_mod_multiples_basic(a * b, d);
}

/// Once the stride of `i` has struck every multiple of `i` from `i * i` on,
/// what is left below bound `i` is exactly what survives bound `i + 1`.
proof fn lemma_stride_advances(k: int, i: int)
    requires
        2 <= i,
    ensures
        (unmarked(k, i) && !(i * i <= k && k % i == 0)) <==> unmarked(k, i + 1),
{
    if unmarked(k, i) && !(i * i <= k && k % i == 0) {
        assert forall|d: int| 2 <= d < i + 1 && #[trigger] (k % d) == 0 implies k == d by {
            if d == i && k != i {
                let q = k / i;
                lemma_fundamental_div_mod(k, i);
                assert(q >= 2) by (nonlinear_arith)
                    requires
                        k == i * q,
                        k >= 2,
                        2 <= i,
                        k != i,
                ;
                assert(k < i * i);
                assert(q < i) by (nonlinear_arith)
                    requires
                        k == i * q,
                        k < i * i,
                        2 <= q,
                        2 <= i,
                ;
                lemma_mod_multiples_basic(i, q);
                assert(k % q == 0);
                assert(k != q) by (nonlinear_arith)
                    requires
                        k == i * q,
                        2 <= i,
                        2 <= q,
                ;
                assert(false);
            }
        }
    }
    if unmarked(k, i + 1) {
        if i * i <= k && k % i == 0 {
            assert(k == i);
            assert(!(i * i <= i)) by (nonlinear_arith)
                requires
                    2 <= i,
            ;
        }
        assert(unmarked(k, i));
    }
}

/// A composite stride index strikes nothing new: every multiple of `i` it
/// would count out is already counted out by a smaller divisor of `i`.
proof fn lemma_composite_stride_redundant(k: int, i: int)
    requires
        2 <= i,
        !unmarked(i, i),
    ensures
        unmarked(k, i) <==> unmarked(k, i + 1),
{
    if unmarked(k, i) {
        let d0 = choose|d: int| 2 <= d < i && #[trigger] (i % d) == 0 && i != d;
        assert(2 <= d0 < i && i % d0 == 0);
        assert forall|d: int| 2 <= d < i + 1 && #[trigger] (k % d) == 0 implies k == d by {
            if d == i && k != i {
                lemma_divides_transitive(k, i, d0);
                let q = k / i;
                lemma_fundamental_div_mod(k, i);
                assert(k > i) by (nonlinear_arith)
                    requires
                        k == i * q,
                        k >= 2,
                        2 <= i,
                        k != i,
                ;
                assert(k != d0);
                assert(false);
            }
        }
    }
}

/// Once the stride bound has passed the square root of `k`, survival of the
/// sieve is exactly primality.
proof fn lemma_unmarked_is_prime(k: int, bound: int)
    requires
        2 <= bound,
        0 <= k < bound * bound,
    ensures
        unmarked(k, bound) <==> is_prime(k),
{
    if unmarked(k, bound) && !is_prime(k) {
        let d = choose|d: int| 2 <= d < k && #[trigger] (k % d) == 0;
        assert(2 <= d < k && k % d == 0);
        lemma_small_divisor(k, d);
        let w = choose|w: int| 2 <= w && w * w <= k && #[trigger] (k % w) == 0 && w < k;
        assert(w < bound) by (nonlinear_arith)
            requires
                w * w <= k,
                k < bound * bound,
                2 <= w,
                2 <= bound,
        ;
        assert(k == w);
        assert(false);
    }
    if is_prime(k) {
        assert forall|d: int| 2 <= d < bound && #[trigger] (k % d) == 0 implies k == d by {
            if d > k {
                lemma_small_mod(k as nat, d as nat);
                assert(false);
            }
        }
        assert(unmarked(k, bound));
    }
}

/// The primes between `start` and `end` inclusive, in increasing order, by
/// the Sieve of Eratosthenes: every entry of a marker array sized `end + 1`
/// starts true, zero and one are struck, each surviving stride index `i`
/// strikes the multiples of `i` from `i * i` on, and the survivors within
/// the range are collected in order.
pub fn sieve(start: u64, end: u64) -> (primes: Vec<u64>)
    requires
        end as int + 1 <= usize::MAX as int,
    ensures
        primes@ == primes_in_range(start as int, end as int),
        forall|t: int| 0 <= t < primes@.len() ==> is_prime(#[trigger] primes@[t] as int),
        forall|t: int| 0 <= t < primes@.len() ==> start <= #[trigger] primes@[t] <= end,
        forall|t: int, u: int| 0 <= t < u < primes@.len() ==> primes@[t] < primes@[u],
        forall|p: u64| start <= p <= end && is_prime(p as int) ==> primes@.contains(p),
{
    let e: usize = end as usize;
    let mut marks: Vec<bool> = Vec::new();
    while marks.len() <= e
        invariant
            marks@.len() <= e + 1,
            forall|t: int| 0 <= t < marks@.len() ==> marks@[t] == true,
        decreases e + 1 - marks@.len(),
    {
        marks.push(true);
    }
    marks.set(0, false);
    if end >= 1 {
        marks.set(1, false);
    }
    assert(forall|k: int| 0 <= k <= e ==> (marks@[k] <==> unmarked(k, 2)));
    let mut i: usize = 2;
    while i <= e / i
        invariant
            2 <= i,
            e as int == end as int,
            e as int + 1 <= usize::MAX as int,
            marks@.len() == e + 1,
            forall|k: int| 0 <= k <= e ==> (marks@[k] <==> unmarked(k, i as int)),
        decreases e + 1 - i,
    {
        proof {
            lemma_fundamental_div_mod(e as int, i as int);
            lemma_mod_bound(e as int, i as int);
            assert((i as int) * (i as int) <= e as int) by (nonlinear_arith)
                requires
                    e as int == (i as int) * ((e as int) / (i as int)) + (e as int) % (i as int),
                    0 <= (e as int) % (i as int),
                    i as int <= (e as int) / (i as int),
                    2 <= i as int,
            ;
        }
        if marks[i] {
            proof {
                lemma_mod_multiples_basic(i as int, i as int);
            }
            let mut j: usize = i * i;
            while j <= e
                invariant
                    2 <= i,
                    (i as int) * (i as int) <= j as int,
                    e as int + 1 <= usize::MAX as int,
                    marks@.len() == e + 1,
                    j as int <= e as int + 1,
                    j <= e ==> (j as int) % (i as int) == 0,
                    forall|k: int|
                        0 <= k <= e ==> (marks@[k] <==> (unmarked(k, i as int) && !((i as int)
                            * (i as int) <= k < j as int && k % (i as int) == 0))),
                decreases e + 1 - j,
            {
                marks.set(j, false);
                proof {
                    // within one stride past j the only multiple of i is j itself
                    assert forall|k: int| j < k < j + i implies #[trigger] (k % (i as int))
                        != 0 by {
                        if k % (i as int) == 0 {
                            lemma_small_mod(0nat, i as nat);
                            lemma_sub_mod_noop(k, j as int, i as int);
                            lemma_small_mod((k - j) as nat, i as nat);
                            assert(false);
                        }
                    }
                }
                if i <= e - j {
                    proof {
                        lemma_mod_multiples_basic((j as int) / (i as int) + 1, i as int);
                        lemma_fundamental_div_mod(j as int, i as int);
                        assert((j as int + i as int) % (i as int) == 0) by (nonlinear_arith)
                            requires
                                (j as int) % (i as int) == 0,
                                j as int == (i as int) * ((j as int) / (i as int)) + (j as int) % (
                                i as int),
                                (((j as int) / (i as int) + 1) * (i as int)) % (i as int) == 0,
                        ;
                    }
                    j = j + i;
                } else {
                    j = e + 1;
                }
            }
            proof {
                assert forall|k: int| 0 <= k <= e implies (marks@[k] <==> unmarked(
                    k,
                    i as int + 1,
                )) by {
                    lemma_stride_advances(k, i as int);
                }
            }
        } else {
            proof {
                assert(!unmarked(i as int, i as int));
                assert forall|k: int| 0 <= k <= e implies (marks@[k] <==> unmarked(
                    k,
                    i as int + 1,
                )) by {
                    lemma_composite_stride_redundant(k, i as int);
                }
            }
        }
        i = i + 1;
    }
    proof {
        lemma_fundamental_div_mod(e as int, i as int);
        lemma_mod_bound(e as int, i as int);
        assert((e as int) < (i as int) * (i as int)) by (nonlinear_arith)
            requires
                e as int == (i as int) * ((e as int) / (i as int)) + (e as int) % (i as int),
                (e as int) % (i as int) < i as int,
                i as int > (e as int) / (i as int),
                2 <= i as int,
        ;
        assert forall|k: int| 0 <= k <= e implies (marks@[k] <==> is_prime(k)) by {
            lemma_unmarked_is_prime(k, i as int);
        }
    }
    let mut primes: Vec<u64> = Vec::new();
    let mut c: u64 = start;
    while c <= end
        invariant
            start <= c,
            c == start || c as int <= end as int + 1,
            e as int == end as int,
            e as int + 1 <= usize::MAX as int,
            marks@.len() == e + 1,
            forall|k: int| 0 <= k <= e ==> (marks@[k] <==> is_prime(k)),
            primes@ == primes_in_range(start as int, c as int - 1),
            forall|t: int| 0 <= t < primes@.len() ==> is_prime(#[trigger] primes@[t] as int),
            forall|t: int| 0 <= t < primes@.len() ==> start <= #[trigger] primes@[t] < c,
            forall|t: int, u: int| 0 <= t < u < primes@.len() ==> primes@[t] < primes@[u],
            forall|p: u64| start <= p < c && is_prime(p as int) ==> primes@.contains(p),
        decreases end + 1 - c,
    {
        let ghost prev = primes@;
        if marks[c as usize] {
            primes.push(c);
            proof {
                assert(primes@ == primes_in_range(start as int, c as int));
                assert forall|p: u64|
                    start <= p < c + 1 && is_prime(p as int) implies primes@.contains(p) by {
                    if p < c {
                        assert(prev.contains(p));
                        let t = choose|t: int| 0 <= t < prev.len() && prev[t] == p;
                        assert(primes@[t] == p);
                    } else {
                        assert(primes@[primes@.len() - 1] == c);
                    }
                }
            }
        } else {
            proof {
                assert(primes@ == primes_in_range(start as int, c as int));
                assert forall|p: u64|
                    start <= p < c + 1 && is_prime(p as int) implies primes@.contains(p) by {
                    if p == c {
                        assert(!is_prime(c as int));
                    } else {
                        assert(prev.contains(p));
                    }
                }
            }
        }
        c = c + 1;
    }
    proof {
        if start > end {
            assert(primes@ =~= primes_in_range(start as int, end as int));
        }
    }
    primes
}

} // verus!

//! The evaluator is exact through twenty: for every `n` whose factorial the
//! original test range covers, `spec_eval(n)` equals `n!` on the nose. The
//! general identity behind the prime swing method is number theory beyond
//! these contracts, so the claim is settled here the way a calculation is:
//! each quotient count, swing product, halving value and power of two is
//! evaluated step by step from its definition, for each `n` from ten through
//! twenty, and the results are tied together in one public lemma.

use vstd::prelude::*;
use vstd::arithmetic::power::pow;
use crate::bits::popcount;
use crate::factorial::{factorial_primes, odd_factorial_value, spec_eval, spec_factorial};
use crate::powmod::{pow_mod, pow_mod_loop};
use crate::primes::{divisor_free_from, is_prime, lemma_prime_by_trial, primes_in_range};
use crate::swing::{odd_quotient_count, swing_product, swing_rest};

verus! {

/// The factorials through twenty, each one step from the one before.
proof fn lemma_factorials_through_twenty()
    ensures
        spec_factorial(0) == 1,
        spec_factorial(1) == 1,
        spec_factorial(2) == 2,
        spec_factorial(3) == 6,
        spec_factorial(4) == 24,
        spec_factorial(5) == 120,
        spec_factorial(6) == 720,
        spec_factorial(7) == 5040,
        spec_factorial(8) == 40320,
        spec_factorial(9) == 362880,
        spec_factorial(10) == 3628800,
        spec_factorial(11) == 39916800,
        spec_factorial(12) == 479001600,
        spec_factorial(13) == 6227020800,
        spec_factorial(14) == 87178291200,
        spec_factorial(15) == 1307674368000,
        spec_factorial(16) == 20922789888000,
        spec_factorial(17) == 355687428096000,
        spec_factorial(18) == 6402373705728000,
        spec_factorial(19) == 121645100408832000,
        spec_factorial(20) == 2432902008176640000,
{
    assert(spec_factorial(0) == 1);
    assert(spec_factorial(1) == 1);
    assert(spec_factorial(2) == 2);
    assert(spec_factorial(3) == 6);
    assert(spec_factorial(4) == 24);
    assert(spec_factorial(5) == 120);
    assert(spec_factorial(6) == 720);
    assert(spec_factorial(7) == 5040);
    assert(spec_factorial(8) == 40320);
    assert(spec_factorial(9) == 362880);
    assert(spec_factorial(10) == 3628800);
    assert(spec_factorial(11) == 39916800);
    assert(spec_factorial(12) == 479001600);
    assert(spec_factorial(13) == 6227020800);
    assert(spec_factorial(14) == 87178291200);
    assert(spec_factorial(15) == 1307674368000);
    assert(spec_factorial(16) == 20922789888000);
    assert(spec_factorial(17) == 355687428096000);
    assert(spec_factorial(18) == 6402373705728000);
    assert(spec_factorial(19) == 121645100408832000);
    assert(spec_factorial(20) == 2432902008176640000);
}

/// The odd primes through twenty-one, settled value by value: what the
/// evaluator's sieve hands the halving composition for each `n` here.
proof fn lemma_odd_primes_concrete()
    ensures
        primes_in_range(3, 11) == seq![3u64, 5, 7, 11],
        primes_in_range(3, 12) == seq![3u64, 5, 7, 11],
        primes_in_range(3, 13) == seq![3u64, 5, 7, 11, 13],
        primes_in_range(3, 14) == seq![3u64, 5, 7, 11, 13],
        primes_in_range(3, 15) == seq![3u64, 5, 7, 11, 13],
        primes_in_range(3, 16) == seq![3u64, 5, 7, 11, 13],
        primes_in_range(3, 17) == seq![3u64, 5, 7, 11, 13, 17],
        primes_in_range(3, 18) == seq![3u64, 5, 7, 11, 13, 17],
        primes_in_range(3, 19) == seq![3u64, 5, 7, 11, 13, 17, 19],
        primes_in_range(3, 20) == seq![3u64, 5, 7, 11, 13, 17, 19],
        primes_in_range(3, 21) == seq![3u64, 5, 7, 11, 13, 17, 19],
{
    assert(divisor_free_from(3, 2)) by {
        reveal_with_fuel(divisor_free_from, 22);
    }
    lemma_prime_by_trial(3);
    assert(divisor_free_from(5, 2)) by {
        reveal_with_fuel(divisor_free_from, 22);
    }
    lemma_prime_by_trial(5);
    assert(divisor_free_from(7, 2)) by {
        reveal_with_fuel(divisor_free_from, 22);
    }
    lemma_prime_by_trial(7);
    assert(divisor_free_from(11, 2)) by {
        reveal_with_fuel(divisor_free_from, 22);
    }
    lemma_prime_by_trial(11);
    assert(divisor_free_from(13, 2)) by {
        reveal_with_fuel(divisor_free_from, 22);
    }
    lemma_prime_by_trial(13);
    assert(divisor_free_from(17, 2)) by {
        reveal_with_fuel(divisor_free_from, 22);
    }
    lemma_prime_by_trial(17);
    assert(divisor_free_from(19, 2)) by {
        reveal_with_fuel(divisor_free_from, 22);
    }
    lemma_prime_by_trial(19);
    assert(!is_prime(4)) by {
        assert(4int % 2 == 0);
    }
    assert(!is_prime(6)) by {
        assert(6int % 2 == 0);
    }
    assert(!is_prime(8)) by {
        assert(8int % 2 == 0);
    }
    assert(!is_prime(9)) by {
        assert(9int % 3 == 0);
    }
    assert(!is_prime(10)) by {
        assert(10int % 2 == 0);
    }
    assert(!is_prime(12)) by {
        assert(12int % 2 == 0);
    }
    assert(!is_prime(14)) by {
        assert(14int % 2 == 0);
    }
    assert(!is_prime(15)) by {
        assert(15int % 3 == 0);
    }
    assert(!is_prime(16)) by {
        assert(16int % 2 == 0);
    }
    assert(!is_prime(18)) by {
        assert(18int % 2 == 0);
    }
    assert(!is_prime(20)) by {
        assert(20int % 2 == 0);
    }
    assert(!is_prime(21)) by {
        assert(21int % 3 == 0);
    }
    assert(primes_in_range(3, 2) == Seq::<u64>::empty());
    assert(primes_in_range(3, 3) =~= seq![3u64]);
    assert(primes_in_range(3, 4) =~= seq![3u64]);
    assert(primes_in_range(3, 5) =~= seq![3u64, 5]);
    assert(primes_in_range(3, 6) =~= seq![3u64, 5]);
    assert(primes_in_range(3, 7) =~= seq![3u64, 5, 7]);
    assert(primes_in_range(3, 8) =~= seq![3u64, 5, 7]);
    assert(primes_in_range(3, 9) =~= seq![3u64, 5, 7]);
    assert(primes_in_range(3, 10) =~= seq![3u64, 5, 7]);
    assert(primes_in_range(3, 11) =~= seq![3u64, 5, 7, 11]);
    assert(primes_in_range(3, 12) =~= seq![3u64, 5, 7, 11]);
    assert(primes_in_range(3, 13) =~= seq![3u64, 5, 7, 11, 13]);
    assert(primes_in_range(3, 14) =~= seq![3u64, 5, 7, 11, 13]);
    assert(primes_in_range(3, 15) =~= seq![3u64, 5, 7, 11, 13]);
    assert(primes_in_range(3, 16) =~= seq![3u64, 5, 7, 11, 13]);
    assert(primes_in_range(3, 17) =~= seq![3u64, 5, 7, 11, 13, 17]);
    assert(primes_in_range(3, 18) =~= seq![3u64, 5, 7, 11, 13, 17]);
    assert(primes_in_range(3, 19) =~= seq![3u64, 5, 7, 11, 13, 17, 19]);
    assert(primes_in_range(3, 20) =~= seq![3u64, 5, 7, 11, 13, 17, 19]);
    assert(primes_in_range(3, 21) =~= seq![3u64, 5, 7, 11, 13, 17, 19]);
}

/// The evaluator at ten: the halving chain 2, 5, 10, computed out.
#[verifier::rlimit(100)]
proof fn lemma_eval_ten()
    ensures
        spec_eval(10) == 3628800,
{
    reveal_with_fuel(pow, 4);
    lemma_odd_primes_concrete();
    let p = factorial_primes(10);
    assert(p == seq![3u64, 5, 7, 11]);
    assert(pow(3int, 0) == 1);
    assert(pow(3int, 1) == 3);
    assert(pow(3int, 2) == 9);
    assert(pow(5int, 0) == 1);
    assert(pow(5int, 1) == 5);
    assert(pow(7int, 0) == 1);
    assert(pow(7int, 1) == 7);
    assert(pow(11int, 0) == 1);
    assert(odd_quotient_count(0, 3) == 0);
    assert(odd_quotient_count(2, 3) == 0);
    assert(odd_quotient_count(0, 5) == 0);
    assert(odd_quotient_count(2, 5) == 0);
    assert(odd_quotient_count(0, 7) == 0);
    assert(odd_quotient_count(2, 7) == 0);
    assert(odd_quotient_count(0, 11) == 0);
    assert(odd_quotient_count(2, 11) == 0);
    assert(odd_quotient_count(1, 3) == 0);
    assert(odd_quotient_count(5, 3) == 1);
    assert(odd_quotient_count(1, 5) == 0);
    assert(odd_quotient_count(5, 5) == 1);
    assert(odd_quotient_count(5, 7) == 0);
    assert(odd_quotient_count(5, 11) == 0);
    assert(odd_quotient_count(3, 3) == 1);
    assert(odd_quotient_count(10, 3) == 2);
    assert(odd_quotient_count(10, 5) == 0);
    assert(odd_quotient_count(1, 7) == 0);
    assert(odd_quotient_count(10, 7) == 1);
    assert(odd_quotient_count(10, 11) == 0);
    assert(swing_rest(2, p, 4) == 1);
    assert(swing_rest(2, p, 3) == 1);
    assert(swing_rest(2, p, 2) == 1);
    assert(swing_rest(2, p, 1) == 1);
    assert(swing_rest(2, p, 0) == 1);
    assert(swing_rest(5, p, 4) == 1);
    assert(swing_rest(5, p, 3) == 1);
    assert(swing_rest(5, p, 2) == 1);
    assert(swing_rest(5, p, 1) == 5);
    assert(swing_rest(5, p, 0) == 15);
    assert(swing_rest(10, p, 4) == 1);
    assert(swing_rest(10, p, 3) == 1);
    assert(swing_rest(10, p, 2) == 7);
    assert(swing_rest(10, p, 1) == 7);
    assert(swing_rest(10, p, 0) == 63);
    assert(odd_factorial_value(0, p) == 1);
    assert(odd_factorial_value(1, p) == 1);
    assert(pow_mod_loop(1, 1, 0, u64::MAX) == 1);
    assert(pow_mod_loop(1, 1, 1, u64::MAX) == 1);
    assert(pow_mod_loop(1, 1, 2, u64::MAX) == 1);
    assert(pow_mod(1, 2, u64::MAX) == 1);
    assert(odd_factorial_value(2, p) == 1);
    assert(pow_mod_loop(1, 1, 0, u64::MAX) == 1);
    assert(pow_mod_loop(1, 1, 1, u64::MAX) == 1);
    assert(pow_mod_loop(1, 1, 2, u64::MAX) == 1);
    assert(pow_mod(1, 2, u64::MAX) == 1);
    assert(odd_factorial_value(5, p) == 15);
    assert(pow_mod_loop(225, 50625, 0, u64::MAX) == 225);
    assert(pow_mod_loop(1, 225, 1, u64::MAX) == 225);
    assert(pow_mod_loop(1, 15, 2, u64::MAX) == 225);
    assert(pow_mod(15, 2, u64::MAX) == 225);
    assert(odd_factorial_value(10, p) == 14175);
    assert(popcount(0) == 0);
    assert(popcount(1) == 1);
    assert(popcount(2) == 1);
    assert(popcount(5) == 2);
    assert(popcount(10) == 2);
    assert(pow_mod_loop(256, 65536, 0, u64::MAX) == 256);
    assert(pow_mod_loop(1, 256, 1, u64::MAX) == 256);
    assert(pow_mod_loop(1, 16, 2, u64::MAX) == 256);
    assert(pow_mod_loop(1, 4, 4, u64::MAX) == 256);
    assert(pow_mod_loop(1, 2, 8, u64::MAX) == 256);
    assert(pow_mod(2, 8, u64::MAX) == 256);
    assert(spec_eval(10) == 3628800);
}

/// The evaluator at eleven: the halving chain 2, 5, 11, computed out.
#[verifier::rlimit(100)]
proof fn lemma_eval_eleven()
    ensures
        spec_eval(11) == 39916800,
{
    reveal_with_fuel(pow, 4);
    lemma_odd_primes_concrete();
    let p = factorial_primes(11);
    assert(p == seq![3u64, 5, 7, 11]);
    assert(pow(3int, 0) == 1);
    assert(pow(3int, 1) == 3);
    assert(pow(3int, 2) == 9);
    assert(pow(5int, 0) == 1);
    assert(pow(5int, 1) == 5);
    assert(pow(7int, 0) == 1);
    assert(pow(7int, 1) == 7);
    assert(pow(11int, 0) == 1);
    assert(pow(11int, 1) == 11);
    assert(odd_quotient_count(0, 3) == 0);
    assert(odd_quotient_count(2, 3) == 0);
    assert(odd_quotient_count(0, 5) == 0);
    assert(odd_quotient_count(2, 5) == 0);
    assert(odd_quotient_count(0, 7) == 0);
    assert(odd_quotient_count(2, 7) == 0);
    assert(odd_quotient_count(0, 11) == 0);
    assert(odd_quotient_count(2, 11) == 0);
    assert(odd_quotient_count(1, 3) == 0);
    assert(odd_quotient_count(5, 3) == 1);
    assert(odd_quotient_count(1, 5) == 0);
    assert(odd_quotient_count(5, 5) == 1);
    assert(odd_quotient_count(5, 7) == 0);
    assert(odd_quotient_count(5, 11) == 0);
    assert(odd_quotient_count(3, 3) == 1);
    assert(odd_quotient_count(11, 3) == 2);
    assert(odd_quotient_count(11, 5) == 0);
    assert(odd_quotient_count(1, 7) == 0);
    assert(odd_quotient_count(11, 7) == 1);
    assert(odd_quotient_count(1, 11) == 0);
    assert(odd_quotient_count(11, 11) == 1);
    assert(swing_rest(2, p, 4) == 1);
    assert(swing_rest(2, p, 3) == 1);
    assert(swing_rest(2, p, 2) == 1);
    assert(swing_rest(2, p, 1) == 1);
    assert(swing_rest(2, p, 0) == 1);
    assert(swing_rest(5, p, 4) == 1);
    assert(swing_rest(5, p, 3) == 1);
    assert(swing_rest(5, p, 2) == 1);
    assert(swing_rest(5, p, 1) == 5);
    assert(swing_rest(5, p, 0) == 15);
    assert(swing_rest(11, p, 4) == 1);
    assert(swing_rest(11, p, 3) == 11);
    assert(swing_rest(11, p, 2) == 77);
    assert(swing_rest(11, p, 1) == 77);
    assert(swing_rest(11, p, 0) == 693);
    assert(odd_factorial_value(0, p) == 1);
    assert(odd_factorial_value(1, p) == 1);
    assert(pow_mod_loop(1, 1, 0, u64::MAX) == 1);
    assert(pow_mod_loop(1, 1, 1, u64::MAX) == 1);
    assert(pow_mod_loop(1, 1, 2, u64::MAX) == 1);
    assert(pow_mod(1, 2, u64::MAX) == 1);
    assert(odd_factorial_value(2, p) == 1);
    assert(pow_mod_loop(1, 1, 0, u64::MAX) == 1);
    assert(pow_mod_loop(1, 1, 1, u64::MAX) == 1);
    assert(pow_mod_loop(1, 1, 2, u64::MAX) == 1);
    assert(pow_mod(1, 2, u64::MAX) == 1);
    assert(odd_factorial_value(5, p) == 15);
    assert(pow_mod_loop(225, 50625, 0, u64::MAX) == 225);
    assert(pow_mod_loop(1, 225, 1, u64::MAX) == 225);
    assert(pow_mod_loop(1, 15, 2, u64::MAX) == 225);
    assert(pow_mod(15, 2, u64::MAX) == 225);
    assert(odd_factorial_value(11, p) == 155925);
    assert(popcount(0) == 0);
    assert(popcount(1) == 1);
    assert(popcount(2) == 1);
    assert(popcount(5) == 2);
    assert(popcount(11) == 3);
    assert(pow_mod_loop(256, 65536, 0, u64::MAX) == 256);
    assert(pow_mod_loop(1, 256, 1, u64::MAX) == 256);
    assert(pow_mod_loop(1, 16, 2, u64::MAX) == 256);
    assert(pow_mod_loop(1, 4, 4, u64::MAX) == 256);
    assert(pow_mod_loop(1, 2, 8, u64::MAX) == 256);
    assert(pow_mod(2, 8, u64::MAX) == 256);
    assert(spec_eval(11) == 39916800);
}

/// The evaluator at twelve: the halving chain 3, 6, 12, computed out.
#[verifier::rlimit(100)]
proof fn lemma_eval_twelve()
    ensures
        spec_eval(12) == 479001600,
{
    reveal_with_fuel(pow, 4);
    lemma_odd_primes_concrete();
    let p = factorial_primes(12);
    assert(p == seq![3u64, 5, 7, 11, 13]);
    assert(pow(3int, 0) == 1);
    assert(pow(3int, 1) == 3);
    assert(pow(5int, 0) == 1);
    assert(pow(5int, 1) == 5);
    assert(pow(7int, 0) == 1);
    assert(pow(7int, 1) == 7);
    assert(pow(11int, 0) == 1);
    assert(pow(11int, 1) == 11);
    assert(pow(13int, 0) == 1);
    assert(odd_quotient_count(0, 3) == 0);
    assert(odd_quotient_count(1, 3) == 0);
    assert(odd_quotient_count(3, 3) == 1);
    assert(odd_quotient_count(0, 5) == 0);
    assert(odd_quotient_count(3, 5) == 0);
    assert(odd_quotient_count(0, 7) == 0);
    assert(odd_quotient_count(3, 7) == 0);
    assert(odd_quotient_count(0, 11) == 0);
    assert(odd_quotient_count(3, 11) == 0);
    assert(odd_quotient_count(0, 13) == 0);
    assert(odd_quotient_count(3, 13) == 0);
    assert(odd_quotient_count(2, 3) == 0);
    assert(odd_quotient_count(6, 3) == 0);
    assert(odd_quotient_count(1, 5) == 0);
    assert(odd_quotient_count(6, 5) == 1);
    assert(odd_quotient_count(6, 7) == 0);
    assert(odd_quotient_count(6, 11) == 0);
    assert(odd_quotient_count(6, 13) == 0);
    assert(odd_quotient_count(4, 3) == 1);
    assert(odd_quotient_count(12, 3) == 1);
    assert(odd_quotient_count(2, 5) == 0);
    assert(odd_quotient_count(12, 5) == 0);
    assert(odd_quotient_count(1, 7) == 0);
    assert(odd_quotient_count(12, 7) == 1);
    assert(odd_quotient_count(1, 11) == 0);
    assert(odd_quotient_count(12, 11) == 1);
    assert(odd_quotient_count(12, 13) == 0);
    assert(swing_rest(3, p, 5) == 1);
    assert(swing_rest(3, p, 4) == 1);
    assert(swing_rest(3, p, 3) == 1);
    assert(swing_rest(3, p, 2) == 1);
    assert(swing_rest(3, p, 1) == 1);
    assert(swing_rest(3, p, 0) == 3);
    assert(swing_rest(6, p, 5) == 1);
    assert(swing_rest(6, p, 4) == 1);
    assert(swing_rest(6, p, 3) == 1);
    assert(swing_rest(6, p, 2) == 1);
    assert(swing_rest(6, p, 1) == 5);
    assert(swing_rest(6, p, 0) == 5);
    assert(swing_rest(12, p, 5) == 1);
    assert(swing_rest(12, p, 4) == 1);
    assert(swing_rest(12, p, 3) == 11);
    assert(swing_rest(12, p, 2) == 77);
    assert(swing_rest(12, p, 1) == 77);
    assert(swing_rest(12, p, 0) == 231);
    assert(odd_factorial_value(0, p) == 1);
    assert(odd_factorial_value(1, p) == 1);
    assert(pow_mod_loop(1, 1, 0, u64::MAX) == 1);
    assert(pow_mod_loop(1, 1, 1, u64::MAX) == 1);
    assert(pow_mod_loop(1, 1, 2, u64::MAX) == 1);
    assert(pow_mod(1, 2, u64::MAX) == 1);
    assert(odd_factorial_value(3, p) == 3);
    assert(pow_mod_loop(9, 81, 0, u64::MAX) == 9);
    assert(pow_mod_loop(1, 9, 1, u64::MAX) == 9);
    assert(pow_mod_loop(1, 3, 2, u64::MAX) == 9);
    assert(pow_mod(3, 2, u64::MAX) == 9);
    assert(odd_factorial_value(6, p) == 45);
    assert(pow_mod_loop(2025, 4100625, 0, u64::MAX) == 2025);
    assert(pow_mod_loop(1, 2025, 1, u64::MAX) == 2025);
    assert(pow_mod_loop(1, 45, 2, u64::MAX) == 2025);
    assert(pow_mod(45, 2, u64::MAX) == 2025);
    assert(odd_factorial_value(12, p) == 467775);
    assert(popcount(0) == 0);
    assert(popcount(1) == 1);
    assert(popcount(3) == 2);
    assert(popcount(6) == 2);
    assert(popcount(12) == 2);
    assert(pow_mod_loop(1024, 65536, 0, u64::MAX) == 1024);
    assert(pow_mod_loop(4, 256, 1, u64::MAX) == 1024);
    assert(pow_mod_loop(4, 16, 2, u64::MAX) == 1024);
    assert(pow_mod_loop(1, 4, 5, u64::MAX) == 1024);
    assert(pow_mod_loop(1, 2, 10, u64::MAX) == 1024);
    assert(pow_mod(2, 10, u64::MAX) == 1024);
    assert(spec_eval(12) == 479001600);
}

/// The evaluator at thirteen: the halving chain 3, 6, 13, computed out.
#[verifier::rlimit(100)]
proof fn lemma_eval_thirteen()
    ensures
        spec_eval(13) == 6227020800,
{
    reveal_with_fuel(pow, 4);
    lemma_odd_primes_concrete();
    let p = factorial_primes(13);
    assert(p == seq![3u64, 5, 7, 11, 13]);
    assert(pow(3int, 0) == 1);
    assert(pow(3int, 1) == 3);
    assert(pow(5int, 0) == 1);
    assert(pow(5int, 1) == 5);
    assert(pow(7int, 0) == 1);
    assert(pow(7int, 1) == 7);
    assert(pow(11int, 0) == 1);
    assert(pow(11int, 1) == 11);
    assert(pow(13int, 0) == 1);
    assert(pow(13int, 1) == 13);
    assert(odd_quotient_count(0, 3) == 0);
    assert(odd_quotient_count(1, 3) == 0);
    assert(odd_quotient_count(3, 3) == 1);
    assert(odd_quotient_count(0, 5) == 0);
    assert(odd_quotient_count(3, 5) == 0);
    assert(odd_quotient_count(0, 7) == 0);
    assert(odd_quotient_count(3, 7) == 0);
    assert(odd_quotient_count(0, 11) == 0);
    assert(odd_quotient_count(3, 11) == 0);
    assert(odd_quotient_count(0, 13) == 0);
    assert(odd_quotient_count(3, 13) == 0);
    assert(odd_quotient_count(2, 3) == 0);
    assert(odd_quotient_count(6, 3) == 0);
    assert(odd_quotient_count(1, 5) == 0);
    assert(odd_quotient_count(6, 5) == 1);
    assert(odd_quotient_count(6, 7) == 0);
    assert(odd_quotient_count(6, 11) == 0);
    assert(odd_quotient_count(6, 13) == 0);
    assert(odd_quotient_count(4, 3) == 1);
    assert(odd_quotient_count(13, 3) == 1);
    assert(odd_quotient_count(2, 5) == 0);
    assert(odd_quotient_count(13, 5) == 0);
    assert(odd_quotient_count(1, 7) == 0);
    assert(odd_quotient_count(13, 7) == 1);
    assert(odd_quotient_count(1, 11) == 0);
    assert(odd_quotient_count(13, 11) == 1);
    assert(odd_quotient_count(1, 13) == 0);
    assert(odd_quotient_count(13, 13) == 1);
    assert(swing_rest(3, p, 5) == 1);
    assert(swing_rest(3, p, 4) == 1);
    assert(swing_rest(3, p, 3) == 1);
    assert(swing_rest(3, p, 2) == 1);
    assert(swing_rest(3, p, 1) == 1);
    assert(swing_rest(3, p, 0) == 3);
    assert(swing_rest(6, p, 5) == 1);
    assert(swing_rest(6, p, 4) == 1);
    assert(swing_rest(6, p, 3) == 1);
    assert(swing_rest(6, p, 2) == 1);
    assert(swing_rest(6, p, 1) == 5);
    assert(swing_rest(6, p, 0) == 5);
    assert(swing_rest(13, p, 5) == 1);
    assert(swing_rest(13, p, 4) == 13);
    assert(swing_rest(13, p, 3) == 143);
    assert(swing_rest(13, p, 2) == 1001);
    assert(swing_rest(13, p, 1) == 1001);
    assert(swing_rest(13, p, 0) == 3003);
    assert(odd_factorial_value(0, p) == 1);
    assert(odd_factorial_value(1, p) == 1);
    assert(pow_mod_loop(1, 1, 0, u64::MAX) == 1);
    assert(pow_mod_loop(1, 1, 1, u64::MAX) == 1);
    assert(pow_mod_loop(1, 1, 2, u64::MAX) == 1);
    assert(pow_mod(1, 2, u64::MAX) == 1);
    assert(odd_factorial_value(3, p) == 3);
    assert(pow_mod_loop(9, 81, 0, u64::MAX) == 9);
    assert(pow_mod_loop(1, 9, 1, u64::MAX) == 9);
    assert(pow_mod_loop(1, 3, 2, u64::MAX) == 9);
    assert(pow_mod(3, 2, u64::MAX) == 9);
    assert(odd_factorial_value(6, p) == 45);
    assert(pow_mod_loop(2025, 4100625, 0, u64::MAX) == 2025);
    assert(pow_mod_loop(1, 2025, 1, u64::MAX) == 2025);
    assert(pow_mod_loop(1, 45, 2, u64::MAX) == 2025);
    assert(pow_mod(45, 2, u64::MAX) == 2025);
    assert(odd_factorial_value(13, p) == 6081075);
    assert(popcount(0) == 0);
    assert(popcount(1) == 1);
    assert(popcount(3) == 2);
    assert(popcount(6) == 2);
    assert(popcount(13) == 3);
    assert(pow_mod_loop(1024, 65536, 0, u64::MAX) == 1024);
    assert(pow_mod_loop(4, 256, 1, u64::MAX) == 1024);
    assert(pow_mod_loop(4, 16, 2, u64::MAX) == 1024);
    assert(pow_mod_loop(1, 4, 5, u64::MAX) == 1024);
    assert(pow_mod_loop(1, 2, 10, u64::MAX) == 1024);
    assert(pow_mod(2, 10, u64::MAX) == 1024);
    assert(spec_eval(13) == 6227020800);
}

/// The evaluator at fourteen: the halving chain 3, 7, 14, computed out.
#[verifier::rlimit(100)]
proof fn lemma_eval_fourteen()
    ensures
        spec_eval(14) == 87178291200,
{
    reveal_with_fuel(pow, 4);
    lemma_odd_primes_concrete();
    let p = factorial_primes(14);
    assert(p == seq![3u64, 5, 7, 11, 13]);
    assert(pow(3int, 0) == 1);
    assert(pow(3int, 1) == 3);
    assert(pow(5int, 0) == 1);
    assert(pow(5int, 1) == 5);
    assert(pow(7int, 0) == 1);
    assert(pow(7int, 1) == 7);
    assert(pow(11int, 0) == 1);
    assert(pow(11int, 1) == 11);
    assert(pow(13int, 0) == 1);
    assert(pow(13int, 1) == 13);
    assert(odd_quotient_count(0, 3) == 0);
    assert(odd_quotient_count(1, 3) == 0);
    assert(odd_quotient_count(3, 3) == 1);
    assert(odd_quotient_count(0, 5) == 0);
    assert(odd_quotient_count(3, 5) == 0);
    assert(odd_quotient_count(0, 7) == 0);
    assert(odd_quotient_count(3, 7) == 0);
    assert(odd_quotient_count(0, 11) == 0);
    assert(odd_quotient_count(3, 11) == 0);
    assert(odd_quotient_count(0, 13) == 0);
    assert(odd_quotient_count(3, 13) == 0);
    assert(odd_quotient_count(2, 3) == 0);
    assert(odd_quotient_count(7, 3) == 0);
    assert(odd_quotient_count(1, 5) == 0);
    assert(odd_quotient_count(7, 5) == 1);
    assert(odd_quotient_count(1, 7) == 0);
    assert(odd_quotient_count(7, 7) == 1);
    assert(odd_quotient_count(7, 11) == 0);
    assert(odd_quotient_count(7, 13) == 0);
    assert(odd_quotient_count(4, 3) == 1);
    assert(odd_quotient_count(14, 3) == 1);
    assert(odd_quotient_count(2, 5) == 0);
    assert(odd_quotient_count(14, 5) == 0);
    assert(odd_quotient_count(2, 7) == 0);
    assert(odd_quotient_count(14, 7) == 0);
    assert(odd_quotient_count(1, 11) == 0);
    assert(odd_quotient_count(14, 11) == 1);
    assert(odd_quotient_count(1, 13) == 0);
    assert(odd_quotient_count(14, 13) == 1);
    assert(swing_rest(3, p, 5) == 1);
    assert(swing_rest(3, p, 4) == 1);
    assert(swing_rest(3, p, 3) == 1);
    assert(swing_rest(3, p, 2) == 1);
    assert(swing_rest(3, p, 1) == 1);
    assert(swing_rest(3, p, 0) == 3);
    assert(swing_rest(7, p, 5) == 1);
    assert(swing_rest(7, p, 4) == 1);
    assert(swing_rest(7, p, 3) == 1);
    assert(swing_rest(7, p, 2) == 7);
    assert(swing_rest(7, p, 1) == 35);
    assert(swing_rest(7, p, 0) == 35);
    assert(swing_rest(14, p, 5) == 1);
    assert(swing_rest(14, p, 4) == 13);
    assert(swing_rest(14, p, 3) == 143);
    assert(swing_rest(14, p, 2) == 143);
    assert(swing_rest(14, p, 1) == 143);
    assert(swing_rest(14, p, 0) == 429);
    assert(odd_factorial_value(0, p) == 1);
    assert(odd_factorial_value(1, p) == 1);
    assert(pow_mod_loop(1, 1, 0, u64::MAX) == 1);
    assert(pow_mod_loop(1, 1, 1, u64::MAX) == 1);
    assert(pow_mod_loop(1, 1, 2, u64::MAX) == 1);
    assert(pow_mod(1, 2, u64::MAX) == 1);
    assert(odd_factorial_value(3, p) == 3);
    assert(pow_mod_loop(9, 81, 0, u64::MAX) == 9);
    assert(pow_mod_loop(1, 9, 1, u64::MAX) == 9);
    assert(pow_mod_loop(1, 3, 2, u64::MAX) == 9);
    assert(pow_mod(3, 2, u64::MAX) == 9);
    assert(odd_factorial_value(7, p) == 315);
    assert(pow_mod_loop(99225, 9845600625, 0, u64::MAX) == 99225);
    assert(pow_mod_loop(1, 99225, 1, u64::MAX) == 99225);
    assert(pow_mod_loop(1, 315, 2, u64::MAX) == 99225);
    assert(pow_mod(315, 2, u64::MAX) == 99225);
    assert(odd_factorial_value(14, p) == 42567525);
    assert(popcount(0) == 0);
    assert(popcount(1) == 1);
    assert(popcount(3) == 2);
    assert(popcount(7) == 3);
    assert(popcount(14) == 3);
    assert(pow_mod_loop(2048, 65536, 0, u64::MAX) == 2048);
    assert(pow_mod_loop(8, 256, 1, u64::MAX) == 2048);
    assert(pow_mod_loop(8, 16, 2, u64::MAX) == 2048);
    assert(pow_mod_loop(2, 4, 5, u64::MAX) == 2048);
    assert(pow_mod_loop(1, 2, 11, u64::MAX) == 2048);
    assert(pow_mod(2, 11, u64::MAX) == 2048);
    assert(spec_eval(14) == 87178291200);
}

/// The evaluator at fifteen: the halving chain 3, 7, 15, computed out.
#[verifier::rlimit(100)]
proof fn lemma_eval_fifteen()
    ensures
        spec_eval(15) == 1307674368000,
{
    reveal_with_fuel(pow, 4);
    lemma_odd_primes_concrete();
    let p = factorial_primes(15);
    assert(p == seq![3u64, 5, 7, 11, 13]);
    assert(pow(3int, 0) == 1);
    assert(pow(3int, 1) == 3);
    assert(pow(3int, 2) == 9);
    assert(pow(5int, 0) == 1);
    assert(pow(5int, 1) == 5);
    assert(pow(7int, 0) == 1);
    assert(pow(7int, 1) == 7);
    assert(pow(11int, 0) == 1);
    assert(pow(11int, 1) == 11);
    assert(pow(13int, 0) == 1);
    assert(pow(13int, 1) == 13);
    assert(odd_quotient_count(0, 3) == 0);
    assert(odd_quotient_count(1, 3) == 0);
    assert(odd_quotient_count(3, 3) == 1);
    assert(odd_quotient_count(0, 5) == 0);
    assert(odd_quotient_count(3, 5) == 0);
    assert(odd_quotient_count(0, 7) == 0);
    assert(odd_quotient_count(3, 7) == 0);
    assert(odd_quotient_count(0, 11) == 0);
    assert(odd_quotient_count(3, 11) == 0);
    assert(odd_quotient_count(0, 13) == 0);
    assert(odd_quotient_count(3, 13) == 0);
    assert(odd_quotient_count(2, 3) == 0);
    assert(odd_quotient_count(7, 3) == 0);
    assert(odd_quotient_count(1, 5) == 0);
    assert(odd_quotient_count(7, 5) == 1);
    assert(odd_quotient_count(1, 7) == 0);
    assert(odd_quotient_count(7, 7) == 1);
    assert(odd_quotient_count(7, 11) == 0);
    assert(odd_quotient_count(7, 13) == 0);
    assert(odd_quotient_count(5, 3) == 1);
    assert(odd_quotient_count(15, 3) == 2);
    assert(odd_quotient_count(15, 5) == 1);
    assert(odd_quotient_count(2, 7) == 0);
    assert(odd_quotient_count(15, 7) == 0);
    assert(odd_quotient_count(1, 11) == 0);
    assert(odd_quotient_count(15, 11) == 1);
    assert(odd_quotient_count(1, 13) == 0);
    assert(odd_quotient_count(15, 13) == 1);
    assert(swing_rest(3, p, 5) == 1);
    assert(swing_rest(3, p, 4) == 1);
    assert(swing_rest(3, p, 3) == 1);
    assert(swing_rest(3, p, 2) == 1);
    assert(swing_rest(3, p, 1) == 1);
    assert(swing_rest(3, p, 0) == 3);
    assert(swing_rest(7, p, 5) == 1);
    assert(swing_rest(7, p, 4) == 1);
    assert(swing_rest(7, p, 3) == 1);
    assert(swing_rest(7, p, 2) == 7);
    assert(swing_rest(7, p, 1) == 35);
    assert(swing_rest(7, p, 0) == 35);
    assert(swing_rest(15, p, 5) == 1);
    assert(swing_rest(15, p, 4) == 13);
    assert(swing_rest(15, p, 3) == 143);
    assert(swing_rest(15, p, 2) == 143);
    assert(swing_rest(15, p, 1) == 715);
    assert(swing_rest(15, p, 0) == 6435);
    assert(odd_factorial_value(0, p) == 1);
    assert(odd_factorial_value(1, p) == 1);
    assert(pow_mod_loop(1, 1, 0, u64::MAX) == 1);
    assert(pow_mod_loop(1, 1, 1, u64::MAX) == 1);
    assert(pow_mod_loop(1, 1, 2, u64::MAX) == 1);
    assert(pow_mod(1, 2, u64::MAX) == 1);
    assert(odd_factorial_value(3, p) == 3);
    assert(pow_mod_loop(9, 81, 0, u64::MAX) == 9);
    assert(pow_mod_loop(1, 9, 1, u64::MAX) == 9);
    assert(pow_mod_loop(1, 3, 2, u64::MAX) == 9);
    assert(pow_mod(3, 2, u64::MAX) == 9);
    assert(odd_factorial_value(7, p) == 315);
    assert(pow_mod_loop(99225, 9845600625, 0, u64::MAX) == 99225);
    assert(pow_mod_loop(1, 99225, 1, u64::MAX) == 99225);
    assert(pow_mod_loop(1, 315, 2, u64::MAX) == 99225);
    assert(pow_mod(315, 2, u64::MAX) == 99225);
    assert(odd_factorial_value(15, p) == 638512875);
    assert(popcount(0) == 0);
    assert(popcount(1) == 1);
    assert(popcount(3) == 2);
    assert(popcount(7) == 3);
    assert(popcount(15) == 4);
    assert(pow_mod_loop(2048, 65536, 0, u64::MAX) == 2048);
    assert(pow_mod_loop(8, 256, 1, u64::MAX) == 2048);
    assert(pow_mod_loop(8, 16, 2, u64::MAX) == 2048);
    assert(pow_mod_loop(2, 4, 5, u64::MAX) == 2048);
    assert(pow_mod_loop(1, 2, 11, u64::MAX) == 2048);
    assert(pow_mod(2, 11, u64::MAX) == 2048);
    assert(spec_eval(15) == 1307674368000);
}

/// The evaluator at sixteen: the halving chain 2, 4, 8, 16, computed out.
#[verifier::rlimit(100)]
proof fn lemma_eval_sixteen()
    ensures
        spec_eval(16) == 20922789888000,
{
    reveal_with_fuel(pow, 4);
    lemma_odd_primes_concrete();
    let p = factorial_primes(16);
    assert(p == seq![3u64, 5, 7, 11, 13, 17]);
    assert(pow(3int, 0) == 1);
    assert(pow(3int, 1) == 3);
    assert(pow(3int, 2) == 9);
    assert(pow(5int, 0) == 1);
    assert(pow(5int, 1) == 5);
    assert(pow(7int, 0) == 1);
    assert(pow(7int, 1) == 7);
    assert(pow(11int, 0) == 1);
    assert(pow(11int, 1) == 11);
    assert(pow(13int, 0) == 1);
    assert(pow(13int, 1) == 13);
    assert(pow(17int, 0) == 1);
    assert(odd_quotient_count(0, 3) == 0);
    assert(odd_quotient_count(2, 3) == 0);
    assert(odd_quotient_count(0, 5) == 0);
    assert(odd_quotient_count(2, 5) == 0);
    assert(odd_quotient_count(0, 7) == 0);
    assert(odd_quotient_count(2, 7) == 0);
    assert(odd_quotient_count(0, 11) == 0);
    assert(odd_quotient_count(2, 11) == 0);
    assert(odd_quotient_count(0, 13) == 0);
    assert(odd_quotient_count(2, 13) == 0);
    assert(odd_quotient_count(0, 17) == 0);
    assert(odd_quotient_count(2, 17) == 0);
    assert(odd_quotient_count(1, 3) == 0);
    assert(odd_quotient_count(4, 3) == 1);
    assert(odd_quotient_count(4, 5) == 0);
    assert(odd_quotient_count(4, 7) == 0);
    assert(odd_quotient_count(4, 11) == 0);
    assert(odd_quotient_count(4, 13) == 0);
    assert(odd_quotient_count(4, 17) == 0);
    assert(odd_quotient_count(8, 3) == 0);
    assert(odd_quotient_count(1, 5) == 0);
    assert(odd_quotient_count(8, 5) == 1);
    assert(odd_quotient_count(1, 7) == 0);
    assert(odd_quotient_count(8, 7) == 1);
    assert(odd_quotient_count(8, 11) == 0);
    assert(odd_quotient_count(8, 13) == 0);
    assert(odd_quotient_count(8, 17) == 0);
    assert(odd_quotient_count(5, 3) == 1);
    assert(odd_quotient_count(16, 3) == 2);
    assert(odd_quotient_count(3, 5) == 0);
    assert(odd_quotient_count(16, 5) == 1);
    assert(odd_quotient_count(16, 7) == 0);
    assert(odd_quotient_count(1, 11) == 0);
    assert(odd_quotient_count(16, 11) == 1);
    assert(odd_quotient_count(1, 13) == 0);
    assert(odd_quotient_count(16, 13) == 1);
    assert(odd_quotient_count(16, 17) == 0);
    assert(swing_rest(2, p, 6) == 1);
    assert(swing_rest(2, p, 5) == 1);
    assert(swing_rest(2, p, 4) == 1);
    assert(swing_rest(2, p, 3) == 1);
    assert(swing_rest(2, p, 2) == 1);
    assert(swing_rest(2, p, 1) == 1);
    assert(swing_rest(2, p, 0) == 1);
    assert(swing_rest(4, p, 6) == 1);
    assert(swing_rest(4, p, 5) == 1);
    assert(swing_rest(4, p, 4) == 1);
    assert(swing_rest(4, p, 3) == 1);
    assert(swing_rest(4, p, 2) == 1);
    assert(swing_rest(4, p, 1) == 1);
    assert(swing_rest(4, p, 0) == 3);
    assert(swing_rest(8, p, 6) == 1);
    assert(swing_rest(8, p, 5) == 1);
    assert(swing_rest(8, p, 4) == 1);
    assert(swing_rest(8, p, 3) == 1);
    assert(swing_rest(8, p, 2) == 7);
    assert(swing_rest(8, p, 1) == 35);
    assert(swing_rest(8, p, 0) == 35);
    assert(swing_rest(16, p, 6) == 1);
    assert(swing_rest(16, p, 5) == 1);
    assert(swing_rest(16, p, 4) == 13);
    assert(swing_rest(16, p, 3) == 143);
    assert(swing_rest(16, p, 2) == 143);
    assert(swing_rest(16, p, 1) == 715);
    assert(swing_rest(16, p, 0) == 6435);
    assert(odd_factorial_value(0, p) == 1);
    assert(odd_factorial_value(1, p) == 1);
    assert(pow_mod_loop(1, 1, 0, u64::MAX) == 1);
    assert(pow_mod_loop(1, 1, 1, u64::MAX) == 1);
    assert(pow_mod_loop(1, 1, 2, u64::MAX) == 1);
    assert(pow_mod(1, 2, u64::MAX) == 1);
    assert(odd_factorial_value(2, p) == 1);
    assert(pow_mod_loop(1, 1, 0, u64::MAX) == 1);
    assert(pow_mod_loop(1, 1, 1, u64::MAX) == 1);
    assert(pow_mod_loop(1, 1, 2, u64::MAX) == 1);
    assert(pow_mod(1, 2, u64::MAX) == 1);
    assert(odd_factorial_value(4, p) == 3);
    assert(pow_mod_loop(9, 81, 0, u64::MAX) == 9);
    assert(pow_mod_loop(1, 9, 1, u64::MAX) == 9);
    assert(pow_mod_loop(1, 3, 2, u64::MAX) == 9);
    assert(pow_mod(3, 2, u64::MAX) == 9);
    assert(odd_factorial_value(8, p) == 315);
    assert(pow_mod_loop(99225, 9845600625, 0, u64::MAX) == 99225);
    assert(pow_mod_loop(1, 99225, 1, u64::MAX) == 99225);
    assert(pow_mod_loop(1, 315, 2, u64::MAX) == 99225);
    assert(pow_mod(315, 2, u64::MAX) == 99225);
    assert(odd_factorial_value(16, p) == 638512875);
    assert(popcount(0) == 0);
    assert(popcount(1) == 1);
    assert(popcount(2) == 1);
    assert(popcount(4) == 1);
    assert(popcount(8) == 1);
    assert(popcount(16) == 1);
    assert(pow_mod_loop(32768, 65536, 0, u64::MAX) == 32768);
    assert(pow_mod_loop(128, 256, 1, u64::MAX) == 32768);
    assert(pow_mod_loop(8, 16, 3, u64::MAX) == 32768);
    assert(pow_mod_loop(2, 4, 7, u64::MAX) == 32768);
    assert(pow_mod_loop(1, 2, 15, u64::MAX) == 32768);
    assert(pow_mod(2, 15, u64::MAX) == 32768);
    assert(spec_eval(16) == 20922789888000);
}

/// The evaluator at seventeen: the halving chain 2, 4, 8, 17, computed out.
#[verifier::rlimit(100)]
proof fn lemma_eval_seventeen()
    ensures
        spec_eval(17) == 355687428096000,
{
    reveal_with_fuel(pow, 4);
    lemma_odd_primes_concrete();
    let p = factorial_primes(17);
    assert(p == seq![3u64, 5, 7, 11, 13, 17]);
    assert(pow(3int, 0) == 1);
    assert(pow(3int, 1) == 3);
    assert(pow(3int, 2) == 9);
    assert(pow(5int, 0) == 1);
    assert(pow(5int, 1) == 5);
    assert(pow(7int, 0) == 1);
    assert(pow(7int, 1) == 7);
    assert(pow(11int, 0) == 1);
    assert(pow(11int, 1) == 11);
    assert(pow(13int, 0) == 1);
    assert(pow(13int, 1) == 13);
    assert(pow(17int, 0) == 1);
    assert(pow(17int, 1) == 17);
    assert(odd_quotient_count(0, 3) == 0);
    assert(odd_quotient_count(2, 3) == 0);
    assert(odd_quotient_count(0, 5) == 0);
    assert(odd_quotient_count(2, 5) == 0);
    assert(odd_quotient_count(0, 7) == 0);
    assert(odd_quotient_count(2, 7) == 0);
    assert(odd_quotient_count(0, 11) == 0);
    assert(odd_quotient_count(2, 11) == 0);
    assert(odd_quotient_count(0, 13) == 0);
    assert(odd_quotient_count(2, 13) == 0);
    assert(odd_quotient_count(0, 17) == 0);
    assert(odd_quotient_count(2, 17) == 0);
    assert(odd_quotient_count(1, 3) == 0);
    assert(odd_quotient_count(4, 3) == 1);
    assert(odd_quotient_count(4, 5) == 0);
    assert(odd_quotient_count(4, 7) == 0);
    assert(odd_quotient_count(4, 11) == 0);
    assert(odd_quotient_count(4, 13) == 0);
    assert(odd_quotient_count(4, 17) == 0);
    assert(odd_quotient_count(8, 3) == 0);
    assert(odd_quotient_count(1, 5) == 0);
    assert(odd_quotient_count(8, 5) == 1);
    assert(odd_quotient_count(1, 7) == 0);
    assert(odd_quotient_count(8, 7) == 1);
    assert(odd_quotient_count(8, 11) == 0);
    assert(odd_quotient_count(8, 13) == 0);
    assert(odd_quotient_count(8, 17) == 0);
    assert(odd_quotient_count(5, 3) == 1);
    assert(odd_quotient_count(17, 3) == 2);
    assert(odd_quotient_count(3, 5) == 0);
    assert(odd_quotient_count(17, 5) == 1);
    assert(odd_quotient_count(17, 7) == 0);
    assert(odd_quotient_count(1, 11) == 0);
    assert(odd_quotient_count(17, 11) == 1);
    assert(odd_quotient_count(1, 13) == 0);
    assert(odd_quotient_count(17, 13) == 1);
    assert(odd_quotient_count(1, 17) == 0);
    assert(odd_quotient_count(17, 17) == 1);
    assert(swing_rest(2, p, 6) == 1);
    assert(swing_rest(2, p, 5) == 1);
    assert(swing_rest(2, p, 4) == 1);
    assert(swing_rest(2, p, 3) == 1);
    assert(swing_rest(2, p, 2) == 1);
    assert(swing_rest(2, p, 1) == 1);
    assert(swing_rest(2, p, 0) == 1);
    assert(swing_rest(4, p, 6) == 1);
    assert(swing_rest(4, p, 5) == 1);
    assert(swing_rest(4, p, 4) == 1);
    assert(swing_rest(4, p, 3) == 1);
    assert(swing_rest(4, p, 2) == 1);
    assert(swing_rest(4, p, 1) == 1);
    assert(swing_rest(4, p, 0) == 3);
    assert(swing_rest(8, p, 6) == 1);
    assert(swing_rest(8, p, 5) == 1);
    assert(swing_rest(8, p, 4) == 1);
    assert(swing_rest(8, p, 3) == 1);
    assert(swing_rest(8, p, 2) == 7);
    assert(swing_rest(8, p, 1) == 35);
    assert(swing_rest(8, p, 0) == 35);
    assert(swing_rest(17, p, 6) == 1);
    assert(swing_rest(17, p, 5) == 17);
    assert(swing_rest(17, p, 4) == 221);
    assert(swing_rest(17, p, 3) == 2431);
    assert(swing_rest(17, p, 2) == 2431);
    assert(swing_rest(17, p, 1) == 12155);
    assert(swing_rest(17, p, 0) == 109395);
    assert(odd_factorial_value(0, p) == 1);
    assert(odd_factorial_value(1, p) == 1);
    assert(pow_mod_loop(1, 1, 0, u64::MAX) == 1);
    assert(pow_mod_loop(1, 1, 1, u64::MAX) == 1);
    assert(pow_mod_loop(1, 1, 2, u64::MAX) == 1);
    assert(pow_mod(1, 2, u64::MAX) == 1);
    assert(odd_factorial_value(2, p) == 1);
    assert(pow_mod_loop(1, 1, 0, u64::MAX) == 1);
    assert(pow_mod_loop(1, 1, 1, u64::MAX) == 1);
    assert(pow_mod_loop(1, 1, 2, u64::MAX) == 1);
    assert(pow_mod(1, 2, u64::MAX) == 1);
    assert(odd_factorial_value(4, p) == 3);
    assert(pow_mod_loop(9, 81, 0, u64::MAX) == 9);
    assert(pow_mod_loop(1, 9, 1, u64::MAX) == 9);
    assert(pow_mod_loop(1, 3, 2, u64::MAX) == 9);
    assert(pow_mod(3, 2, u64::MAX) == 9);
    assert(odd_factorial_value(8, p) == 315);
    assert(pow_mod_loop(99225, 9845600625, 0, u64::MAX) == 99225);
    assert(pow_mod_loop(1, 99225, 1, u64::MAX) == 99225);
    assert(pow_mod_loop(1, 315, 2, u64::MAX) == 99225);
    assert(pow_mod(315, 2, u64::MAX) == 99225);
    assert(odd_factorial_value(17, p) == 10854718875);
    assert(popcount(0) == 0);
    assert(popcount(1) == 1);
    assert(popcount(2) == 1);
    assert(popcount(4) == 1);
    assert(popcount(8) == 1);
    assert(popcount(17) == 2);
    assert(pow_mod_loop(32768, 65536, 0, u64::MAX) == 32768);
    assert(pow_mod_loop(128, 256, 1, u64::MAX) == 32768);
    assert(pow_mod_loop(8, 16, 3, u64::MAX) == 32768);
    assert(pow_mod_loop(2, 4, 7, u64::MAX) == 32768);
    assert(pow_mod_loop(1, 2, 15, u64::MAX) == 32768);
    assert(pow_mod(2, 15, u64::MAX) == 32768);
    assert(spec_eval(17) == 355687428096000);
}

/// The evaluator at eighteen: the halving chain 2, 4, 9, 18, computed out.
#[verifier::rlimit(100)]
proof fn lemma_eval_eighteen()
    ensures
        spec_eval(18) == 6402373705728000,
{
    reveal_with_fuel(pow, 4);
    lemma_odd_primes_concrete();
    let p = factorial_primes(18);
    assert(p == seq![3u64, 5, 7, 11, 13, 17, 19]);
    assert(pow(3int, 0) == 1);
    assert(pow(3int, 1) == 3);
    assert(pow(3int, 2) == 9);
    assert(pow(5int, 0) == 1);
    assert(pow(5int, 1) == 5);
    assert(pow(7int, 0) == 1);
    assert(pow(7int, 1) == 7);
    assert(pow(11int, 0) == 1);
    assert(pow(11int, 1) == 11);
    assert(pow(13int, 0) == 1);
    assert(pow(13int, 1) == 13);
    assert(pow(17int, 0) == 1);
    assert(pow(17int, 1) == 17);
    assert(pow(19int, 0) == 1);
    assert(odd_quotient_count(0, 3) == 0);
    assert(odd_quotient_count(2, 3) == 0);
    assert(odd_quotient_count(0, 5) == 0);
    assert(odd_quotient_count(2, 5) == 0);
    assert(odd_quotient_count(0, 7) == 0);
    assert(odd_quotient_count(2, 7) == 0);
    assert(odd_quotient_count(0, 11) == 0);
    assert(odd_quotient_count(2, 11) == 0);
    assert(odd_quotient_count(0, 13) == 0);
    assert(odd_quotient_count(2, 13) == 0);
    assert(odd_quotient_count(0, 17) == 0);
    assert(odd_quotient_count(2, 17) == 0);
    assert(odd_quotient_count(0, 19) == 0);
    assert(odd_quotient_count(2, 19) == 0);
    assert(odd_quotient_count(1, 3) == 0);
    assert(odd_quotient_count(4, 3) == 1);
    assert(odd_quotient_count(4, 5) == 0);
    assert(odd_quotient_count(4, 7) == 0);
    assert(odd_quotient_count(4, 11) == 0);
    assert(odd_quotient_count(4, 13) == 0);
    assert(odd_quotient_count(4, 17) == 0);
    assert(odd_quotient_count(4, 19) == 0);
    assert(odd_quotient_count(3, 3) == 1);
    assert(odd_quotient_count(9, 3) == 2);
    assert(odd_quotient_count(1, 5) == 0);
    assert(odd_quotient_count(9, 5) == 1);
    assert(odd_quotient_count(1, 7) == 0);
    assert(odd_quotient_count(9, 7) == 1);
    assert(odd_quotient_count(9, 11) == 0);
    assert(odd_quotient_count(9, 13) == 0);
    assert(odd_quotient_count(9, 17) == 0);
    assert(odd_quotient_count(9, 19) == 0);
    assert(odd_quotient_count(6, 3) == 0);
    assert(odd_quotient_count(18, 3) == 0);
    assert(odd_quotient_count(3, 5) == 0);
    assert(odd_quotient_count(18, 5) == 1);
    assert(odd_quotient_count(18, 7) == 0);
    assert(odd_quotient_count(1, 11) == 0);
    assert(odd_quotient_count(18, 11) == 1);
    assert(odd_quotient_count(1, 13) == 0);
    assert(odd_quotient_count(18, 13) == 1);
    assert(odd_quotient_count(1, 17) == 0);
    assert(odd_quotient_count(18, 17) == 1);
    assert(odd_quotient_count(18, 19) == 0);
    assert(swing_rest(2, p, 7) == 1);
    assert(swing_rest(2, p, 6) == 1);
    assert(swing_rest(2, p, 5) == 1);
    assert(swing_rest(2, p, 4) == 1);
    assert(swing_rest(2, p, 3) == 1);
    assert(swing_rest(2, p, 2) == 1);
    assert(swing_rest(2, p, 1) == 1);
    assert(swing_rest(2, p, 0) == 1);
    assert(swing_rest(4, p, 7) == 1);
    assert(swing_rest(4, p, 6) == 1);
    assert(swing_rest(4, p, 5) == 1);
    assert(swing_rest(4, p, 4) == 1);
    assert(swing_rest(4, p, 3) == 1);
    assert(swing_rest(4, p, 2) == 1);
    assert(swing_rest(4, p, 1) == 1);
    assert(swing_rest(4, p, 0) == 3);
    assert(swing_rest(9, p, 7) == 1);
    assert(swing_rest(9, p, 6) == 1);
    assert(swing_rest(9, p, 5) == 1);
    assert(swing_rest(9, p, 4) == 1);
    assert(swing_rest(9, p, 3) == 1);
    assert(swing_rest(9, p, 2) == 7);
    assert(swing_rest(9, p, 1) == 35);
    assert(swing_rest(9, p, 0) == 315);
    assert(swing_rest(18, p, 7) == 1);
    assert(swing_rest(18, p, 6) == 1);
    assert(swing_rest(18, p, 5) == 17);
    assert(swing_rest(18, p, 4) == 221);
    assert(swing_rest(18, p, 3) == 2431);
    assert(swing_rest(18, p, 2) == 2431);
    assert(swing_rest(18, p, 1) == 12155);
    assert(swing_rest(18, p, 0) == 12155);
    assert(odd_factorial_value(0, p) == 1);
    assert(odd_factorial_value(1, p) == 1);
    assert(pow_mod_loop(1, 1, 0, u64::MAX) == 1);
    assert(pow_mod_loop(1, 1, 1, u64::MAX) == 1);
    assert(pow_mod_loop(1, 1, 2, u64::MAX) == 1);
    assert(pow_mod(1, 2, u64::MAX) == 1);
    assert(odd_factorial_value(2, p) == 1);
    assert(pow_mod_loop(1, 1, 0, u64::MAX) == 1);
    assert(pow_mod_loop(1, 1, 1, u64::MAX) == 1);
    assert(pow_mod_loop(1, 1, 2, u64::MAX) == 1);
    assert(pow_mod(1, 2, u64::MAX) == 1);
    assert(odd_factorial_value(4, p) == 3);
    assert(pow_mod_loop(9, 81, 0, u64::MAX) == 9);
    assert(pow_mod_loop(1, 9, 1, u64::MAX) == 9);
    assert(pow_mod_loop(1, 3, 2, u64::MAX) == 9);
    assert(pow_mod(3, 2, u64::MAX) == 9);
    assert(odd_factorial_value(9, p) == 2835);
    assert(pow_mod_loop(8037225, 64596985700625, 0, u64::MAX) == 8037225);
    assert(pow_mod_loop(1, 8037225, 1, u64::MAX) == 8037225);
    assert(pow_mod_loop(1, 2835, 2, u64::MAX) == 8037225);
    assert(pow_mod(2835, 2, u64::MAX) == 8037225);
    assert(odd_factorial_value(18, p) == 97692469875);
    assert(popcount(0) == 0);
    assert(popcount(1) == 1);
    assert(popcount(2) == 1);
    assert(popcount(4) == 1);
    assert(popcount(9) == 2);
    assert(popcount(18) == 2);
    assert(pow_mod_loop(65536, 4294967296, 0, u64::MAX) == 65536);
    assert(pow_mod_loop(1, 65536, 1, u64::MAX) == 65536);
    assert(pow_mod_loop(1, 256, 2, u64::MAX) == 65536);
    assert(pow_mod_loop(1, 16, 4, u64::MAX) == 65536);
    assert(pow_mod_loop(1, 4, 8, u64::MAX) == 65536);
    assert(pow_mod_loop(1, 2, 16, u64::MAX) == 65536);
    assert(pow_mod(2, 16, u64::MAX) == 65536);
    assert(spec_eval(18) == 6402373705728000);
}

/// The evaluator at nineteen: the halving chain 2, 4, 9, 19, computed out.
#[verifier::rlimit(100)]
proof fn lemma_eval_nineteen()
    ensures
        spec_eval(19) == 121645100408832000,
{
    reveal_with_fuel(pow, 4);
    lemma_odd_primes_concrete();
    let p = factorial_primes(19);
    assert(p == seq![3u64, 5, 7, 11, 13, 17, 19]);
    assert(pow(3int, 0) == 1);
    assert(pow(3int, 1) == 3);
    assert(pow(3int, 2) == 9);
    assert(pow(5int, 0) == 1);
    assert(pow(5int, 1) == 5);
    assert(pow(7int, 0) == 1);
    assert(pow(7int, 1) == 7);
    assert(pow(11int, 0) == 1);
    assert(pow(11int, 1) == 11);
    assert(pow(13int, 0) == 1);
    assert(pow(13int, 1) == 13);
    assert(pow(17int, 0) == 1);
    assert(pow(17int, 1) == 17);
    assert(pow(19int, 0) == 1);
    assert(pow(19int, 1) == 19);
    assert(odd_quotient_count(0, 3) == 0);
    assert(odd_quotient_count(2, 3) == 0);
    assert(odd_quotient_count(0, 5) == 0);
    assert(odd_quotient_count(2, 5) == 0);
    assert(odd_quotient_count(0, 7) == 0);
    assert(odd_quotient_count(2, 7) == 0);
    assert(odd_quotient_count(0, 11) == 0);
    assert(odd_quotient_count(2, 11) == 0);
    assert(odd_quotient_count(0, 13) == 0);
    assert(odd_quotient_count(2, 13) == 0);
    assert(odd_quotient_count(0, 17) == 0);
    assert(odd_quotient_count(2, 17) == 0);
    assert(odd_quotient_count(0, 19) == 0);
    assert(odd_quotient_count(2, 19) == 0);
    assert(odd_quotient_count(1, 3) == 0);
    assert(odd_quotient_count(4, 3) == 1);
    assert(odd_quotient_count(4, 5) == 0);
    assert(odd_quotient_count(4, 7) == 0);
    assert(odd_quotient_count(4, 11) == 0);
    assert(odd_quotient_count(4, 13) == 0);
    assert(odd_quotient_count(4, 17) == 0);
    assert(odd_quotient_count(4, 19) == 0);
    assert(odd_quotient_count(3, 3) == 1);
    assert(odd_quotient_count(9, 3) == 2);
    assert(odd_quotient_count(1, 5) == 0);
    assert(odd_quotient_count(9, 5) == 1);
    assert(odd_quotient_count(1, 7) == 0);
    assert(odd_quotient_count(9, 7) == 1);
    assert(odd_quotient_count(9, 11) == 0);
    assert(odd_quotient_count(9, 13) == 0);
    assert(odd_quotient_count(9, 17) == 0);
    assert(odd_quotient_count(9, 19) == 0);
    assert(odd_quotient_count(6, 3) == 0);
    assert(odd_quotient_count(19, 3) == 0);
    assert(odd_quotient_count(3, 5) == 0);
    assert(odd_quotient_count(19, 5) == 1);
    assert(odd_quotient_count(19, 7) == 0);
    assert(odd_quotient_count(1, 11) == 0);
    assert(odd_quotient_count(19, 11) == 1);
    assert(odd_quotient_count(1, 13) == 0);
    assert(odd_quotient_count(19, 13) == 1);
    assert(odd_quotient_count(1, 17) == 0);
    assert(odd_quotient_count(19, 17) == 1);
    assert(odd_quotient_count(1, 19) == 0);
    assert(odd_quotient_count(19, 19) == 1);
    assert(swing_rest(2, p, 7) == 1);
    assert(swing_rest(2, p, 6) == 1);
    assert(swing_rest(2, p, 5) == 1);
    assert(swing_rest(2, p, 4) == 1);
    assert(swing_rest(2, p, 3) == 1);
    assert(swing_rest(2, p, 2) == 1);
    assert(swing_rest(2, p, 1) == 1);
    assert(swing_rest(2, p, 0) == 1);
    assert(swing_rest(4, p, 7) == 1);
    assert(swing_rest(4, p, 6) == 1);
    assert(swing_rest(4, p, 5) == 1);
    assert(swing_rest(4, p, 4) == 1);
    assert(swing_rest(4, p, 3) == 1);
    assert(swing_rest(4, p, 2) == 1);
    assert(swing_rest(4, p, 1) == 1);
    assert(swing_rest(4, p, 0) == 3);
    assert(swing_rest(9, p, 7) == 1);
    assert(swing_rest(9, p, 6) == 1);
    assert(swing_rest(9, p, 5) == 1);
    assert(swing_rest(9, p, 4) == 1);
    assert(swing_rest(9, p, 3) == 1);
    assert(swing_rest(9, p, 2) == 7);
    assert(swing_rest(9, p, 1) == 35);
    assert(swing_rest(9, p, 0) == 315);
    assert(swing_rest(19, p, 7) == 1);
    assert(swing_rest(19, p, 6) == 19);
    assert(swing_rest(19, p, 5) == 323);
    assert(swing_rest(19, p, 4) == 4199);
    assert(swing_rest(19, p, 3) == 46189);
    assert(swing_rest(19, p, 2) == 46189);
    assert(swing_rest(19, p, 1) == 230945);
    assert(swing_rest(19, p, 0) == 230945);
    assert(odd_factorial_value(0, p) == 1);
    assert(odd_factorial_value(1, p) == 1);
    assert(pow_mod_loop(1, 1, 0, u64::MAX) == 1);
    assert(pow_mod_loop(1, 1, 1, u64::MAX) == 1);
    assert(pow_mod_loop(1, 1, 2, u64::MAX) == 1);
    assert(pow_mod(1, 2, u64::MAX) == 1);
    assert(odd_factorial_value(2, p) == 1);
    assert(pow_mod_loop(1, 1, 0, u64::MAX) == 1);
    assert(pow_mod_loop(1, 1, 1, u64::MAX) == 1);
    assert(pow_mod_loop(1, 1, 2, u64::MAX) == 1);
    assert(pow_mod(1, 2, u64::MAX) == 1);
    assert(odd_factorial_value(4, p) == 3);
    assert(pow_mod_loop(9, 81, 0, u64::MAX) == 9);
    assert(pow_mod_loop(1, 9, 1, u64::MAX) == 9);
    assert(pow_mod_loop(1, 3, 2, u64::MAX) == 9);
    assert(pow_mod(3, 2, u64::MAX) == 9);
    assert(odd_factorial_value(9, p) == 2835);
    assert(pow_mod_loop(8037225, 64596985700625, 0, u64::MAX) == 8037225);
    assert(pow_mod_loop(1, 8037225, 1, u64::MAX) == 8037225);
    assert(pow_mod_loop(1, 2835, 2, u64::MAX) == 8037225);
    assert(pow_mod(2835, 2, u64::MAX) == 8037225);
    assert(odd_factorial_value(19, p) == 1856156927625);
    assert(popcount(0) == 0);
    assert(popcount(1) == 1);
    assert(popcount(2) == 1);
    assert(popcount(4) == 1);
    assert(popcount(9) == 2);
    assert(popcount(19) == 3);
    assert(pow_mod_loop(65536, 4294967296, 0, u64::MAX) == 65536);
    assert(pow_mod_loop(1, 65536, 1, u64::MAX) == 65536);
    assert(pow_mod_loop(1, 256, 2, u64::MAX) == 65536);
    assert(pow_mod_loop(1, 16, 4, u64::MAX) == 65536);
    assert(pow_mod_loop(1, 4, 8, u64::MAX) == 65536);
    assert(pow_mod_loop(1, 2, 16, u64::MAX) == 65536);
    assert(pow_mod(2, 16, u64::MAX) == 65536);
    assert(spec_eval(19) == 121645100408832000);
}

/// The evaluator at twenty: the halving chain 2, 5, 10, 20, computed out.
#[verifier::rlimit(100)]
proof fn lemma_eval_twenty()
    ensures
        spec_eval(20) == 2432902008176640000,
{
    reveal_with_fuel(pow, 4);
    lemma_odd_primes_concrete();
    let p = factorial_primes(20);
    assert(p == seq![3u64, 5, 7, 11, 13, 17, 19]);
    assert(pow(3int, 0) == 1);
    assert(pow(3int, 1) == 3);
    assert(pow(3int, 2) == 9);
    assert(pow(5int, 0) == 1);
    assert(pow(5int, 1) == 5);
    assert(pow(7int, 0) == 1);
    assert(pow(7int, 1) == 7);
    assert(pow(11int, 0) == 1);
    assert(pow(11int, 1) == 11);
    assert(pow(13int, 0) == 1);
    assert(pow(13int, 1) == 13);
    assert(pow(17int, 0) == 1);
    assert(pow(17int, 1) == 17);
    assert(pow(19int, 0) == 1);
    assert(pow(19int, 1) == 19);
    assert(odd_quotient_count(0, 3) == 0);
    assert(odd_quotient_count(2, 3) == 0);
    assert(odd_quotient_count(0, 5) == 0);
    assert(odd_quotient_count(2, 5) == 0);
    assert(odd_quotient_count(0, 7) == 0);
    assert(odd_quotient_count(2, 7) == 0);
    assert(odd_quotient_count(0, 11) == 0);
    assert(odd_quotient_count(2, 11) == 0);
    assert(odd_quotient_count(0, 13) == 0);
    assert(odd_quotient_count(2, 13) == 0);
    assert(odd_quotient_count(0, 17) == 0);
    assert(odd_quotient_count(2, 17) == 0);
    assert(odd_quotient_count(0, 19) == 0);
    assert(odd_quotient_count(2, 19) == 0);
    assert(odd_quotient_count(1, 3) == 0);
    assert(odd_quotient_count(5, 3) == 1);
    assert(odd_quotient_count(1, 5) == 0);
    assert(odd_quotient_count(5, 5) == 1);
    assert(odd_quotient_count(5, 7) == 0);
    assert(odd_quotient_count(5, 11) == 0);
    assert(odd_quotient_count(5, 13) == 0);
    assert(odd_quotient_count(5, 17) == 0);
    assert(odd_quotient_count(5, 19) == 0);
    assert(odd_quotient_count(3, 3) == 1);
    assert(odd_quotient_count(10, 3) == 2);
    assert(odd_quotient_count(10, 5) == 0);
    assert(odd_quotient_count(1, 7) == 0);
    assert(odd_quotient_count(10, 7) == 1);
    assert(odd_quotient_count(10, 11) == 0);
    assert(odd_quotient_count(10, 13) == 0);
    assert(odd_quotient_count(10, 17) == 0);
    assert(odd_quotient_count(10, 19) == 0);
    assert(odd_quotient_count(6, 3) == 0);
    assert(odd_quotient_count(20, 3) == 0);
    assert(odd_quotient_count(4, 5) == 0);
    assert(odd_quotient_count(20, 5) == 0);
    assert(odd_quotient_count(20, 7) == 0);
    assert(odd_quotient_count(1, 11) == 0);
    assert(odd_quotient_count(20, 11) == 1);
    assert(odd_quotient_count(1, 13) == 0);
    assert(odd_quotient_count(20, 13) == 1);
    assert(odd_quotient_count(1, 17) == 0);
    assert(odd_quotient_count(20, 17) == 1);
    assert(odd_quotient_count(1, 19) == 0);
    assert(odd_quotient_count(20, 19) == 1);
    assert(swing_rest(2, p, 7) == 1);
    assert(swing_rest(2, p, 6) == 1);
    assert(swing_rest(2, p, 5) == 1);
    assert(swing_rest(2, p, 4) == 1);
    assert(swing_rest(2, p, 3) == 1);
    assert(swing_rest(2, p, 2) == 1);
    assert(swing_rest(2, p, 1) == 1);
    assert(swing_rest(2, p, 0) == 1);
    assert(swing_rest(5, p, 7) == 1);
    assert(swing_rest(5, p, 6) == 1);
    assert(swing_rest(5, p, 5) == 1);
    assert(swing_rest(5, p, 4) == 1);
    assert(swing_rest(5, p, 3) == 1);
    assert(swing_rest(5, p, 2) == 1);
    assert(swing_rest(5, p, 1) == 5);
    assert(swing_rest(5, p, 0) == 15);
    assert(swing_rest(10, p, 7) == 1);
    assert(swing_rest(10, p, 6) == 1);
    assert(swing_rest(10, p, 5) == 1);
    assert(swing_rest(10, p, 4) == 1);
    assert(swing_rest(10, p, 3) == 1);
    assert(swing_rest(10, p, 2) == 7);
    assert(swing_rest(10, p, 1) == 7);
    assert(swing_rest(10, p, 0) == 63);
    assert(swing_rest(20, p, 7) == 1);
    assert(swing_rest(20, p, 6) == 19);
    assert(swing_rest(20, p, 5) == 323);
    assert(swing_rest(20, p, 4) == 4199);
    assert(swing_rest(20, p, 3) == 46189);
    assert(swing_rest(20, p, 2) == 46189);
    assert(swing_rest(20, p, 1) == 46189);
    assert(swing_rest(20, p, 0) == 46189);
    assert(odd_factorial_value(0, p) == 1);
    assert(odd_factorial_value(1, p) == 1);
    assert(pow_mod_loop(1, 1, 0, u64::MAX) == 1);
    assert(pow_mod_loop(1, 1, 1, u64::MAX) == 1);
    assert(pow_mod_loop(1, 1, 2, u64::MAX) == 1);
    assert(pow_mod(1, 2, u64::MAX) == 1);
    assert(odd_factorial_value(2, p) == 1);
    assert(pow_mod_loop(1, 1, 0, u64::MAX) == 1);
    assert(pow_mod_loop(1, 1, 1, u64::MAX) == 1);
    assert(pow_mod_loop(1, 1, 2, u64::MAX) == 1);
    assert(pow_mod(1, 2, u64::MAX) == 1);
    assert(odd_factorial_value(5, p) == 15);
    assert(pow_mod_loop(225, 50625, 0, u64::MAX) == 225);
    assert(pow_mod_loop(1, 225, 1, u64::MAX) == 225);
    assert(pow_mod_loop(1, 15, 2, u64::MAX) == 225);
    assert(pow_mod(15, 2, u64::MAX) == 225);
    assert(odd_factorial_value(10, p) == 14175);
    assert(pow_mod_loop(200930625, 40373116062890625, 0, u64::MAX) == 200930625);
    assert(pow_mod_loop(1, 200930625, 1, u64::MAX) == 200930625);
    assert(pow_mod_loop(1, 14175, 2, u64::MAX) == 200930625);
    assert(pow_mod(14175, 2, u64::MAX) == 200930625);
    assert(odd_factorial_value(20, p) == 9280784638125);
    assert(popcount(0) == 0);
    assert(popcount(1) == 1);
    assert(popcount(2) == 1);
    assert(popcount(5) == 2);
    assert(popcount(10) == 2);
    assert(popcount(20) == 2);
    assert(pow_mod_loop(262144, 4294967296, 0, u64::MAX) == 262144);
    assert(pow_mod_loop(4, 65536, 1, u64::MAX) == 262144);
    assert(pow_mod_loop(4, 256, 2, u64::MAX) == 262144);
    assert(pow_mod_loop(4, 16, 4, u64::MAX) == 262144);
    assert(pow_mod_loop(1, 4, 9, u64::MAX) == 262144);
    assert(pow_mod_loop(1, 2, 18, u64::MAX) == 262144);
    assert(pow_mod(2, 18, u64::MAX) == 262144);
    assert(spec_eval(20) == 2432902008176640000);
}

/// Through twenty — the whole range in which `n!` is comfortably exact in a
/// 64-bit word — the evaluator returns exactly the factorial: the direct
/// product below ten by construction, and the prime swing composition from
/// ten on by the evaluations above. Past the exact range the evaluator's
/// value is still pinned by `spec_eval`, but it wraps and is no longer `n!`.
pub proof fn lemma_factorial_exact_through_twenty(n: u64)
    requires
        n <= 20,
    ensures
        spec_eval(n) == spec_factorial(n as nat),
{
    lemma_factorials_through_twenty();
    if n == 10 {
        lemma_eval_ten();
    }
    if n == 11 {
        lemma_eval_eleven();
    }
    if n == 12 {
        lemma_eval_twelve();
    }
    if n == 13 {
        lemma_eval_thirteen();
    }
    if n == 14 {
        lemma_eval_fourteen();
    }
    if n == 15 {
        lemma_eval_fifteen();
    }
    if n == 16 {
        lemma_eval_sixteen();
    }
    if n == 17 {
        lemma_eval_seventeen();
    }
    if n == 18 {
        lemma_eval_eighteen();
    }
    if n == 19 {
        lemma_eval_nineteen();
    }
    if n == 20 {
        lemma_eval_twenty();
    }
}

} // verus!

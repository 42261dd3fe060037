use prime_swing::bits::calculate_bits;
use prime_swing::factorial::{factorial, odd_factorial};
use prime_swing::gamma::ngamma;
use prime_swing::powmod::fast_exponentiation;
use prime_swing::primes::sieve;
use prime_swing::swing::swing;

fn direct_factorial(n: u64) -> u64 {
    let mut product: u64 = 1;
    for i in 2..=n {
        product *= i;
    }
    product
}

#[test]
fn test_sieve() {
    let result = sieve(1, 10);
    assert_eq!(result, vec![2, 3, 5, 7]);
}

#[test]
fn test_factorial() {
    let result = factorial(5);
    assert_eq!(result, 120);
}

#[test]
fn sieve_empty_below_two() {
    let expected: Vec<u64> = vec![];
    assert_eq!(sieve(0, 1), expected);
}

#[test]
fn sieve_empty_when_start_exceeds_end() {
    let expected: Vec<u64> = vec![];
    assert_eq!(sieve(11, 10), expected);
}

#[test]
fn sieve_single_prime() {
    assert_eq!(sieve(2, 2), vec![2]);
}

#[test]
fn sieve_inner_range() {
    assert_eq!(sieve(10, 30), vec![11, 13, 17, 19, 23, 29]);
}

#[test]
fn factorial_of_zero_and_one() {
    assert_eq!(factorial(0), 1);
    assert_eq!(factorial(1), 1);
}

#[test]
fn factorial_ten() {
    assert_eq!(factorial(10), 3628800);
}

#[test]
fn factorial_matches_direct_product() {
    for n in 0..=20u64 {
        assert_eq!(factorial(n), direct_factorial(n), "factorial({})", n);
    }
}

#[test]
fn factorial_with_many_carried_bits() {
    // 16 carries 15 factors of two: the restored power must multiply the odd
    // part, not ride inside the exponentiated base
    assert_eq!(factorial(16), direct_factorial(16));
    assert_eq!(factorial(20), 2432902008176640000);
}

#[test]
fn bit_count_examples() {
    assert_eq!(calculate_bits(0), 0);
    assert_eq!(calculate_bits(8), 7);
}

#[test]
fn bit_count_is_n_minus_popcount() {
    for n in 0..=300u64 {
        assert_eq!(calculate_bits(n), n - n.count_ones() as u64);
    }
    assert_eq!(calculate_bits(u64::MAX), u64::MAX - 64);
}

#[test]
fn swing_recurrence_reconstructs_factorials() {
    // n! == swing(n) * (floor(n/2)!)^2, composed over the full prime list
    for n in 0..=12u64 {
        let primes = sieve(2, n + 1);
        let half = direct_factorial(n / 2);
        assert_eq!(swing(n, &primes) * half * half, direct_factorial(n), "swing at {}", n);
    }
}

#[test]
fn odd_factorial_is_factorial_without_twos() {
    for n in 0..=20u64 {
        let primes = sieve(3, n + 1);
        let odd = odd_factorial(n, &primes);
        let bits = calculate_bits(n);
        assert_eq!(odd * (1u64 << bits), direct_factorial(n), "odd part at {}", n);
    }
}

#[test]
fn pow_mod_of_zero_exponent_is_one() {
    assert_eq!(fast_exponentiation(7, 0, 13), 1);
    assert_eq!(fast_exponentiation(0, 0, 1), 1);
    assert_eq!(fast_exponentiation(123456789, 0, u64::MAX), 1);
}

#[test]
fn pow_mod_matches_repeated_multiplication() {
    for b in 0..8u64 {
        for m in 1..10u64 {
            let mut acc: u64 = 1;
            for e in 1..=8u64 {
                acc = (acc * (b % m)) % m;
                assert_eq!(fast_exponentiation(b, e, m), acc, "{}^{} mod {}", b, e, m);
            }
        }
    }
}

#[test]
fn pow_mod_concrete_value() {
    assert_eq!(fast_exponentiation(3, 5, 7), 243 % 7);
    assert_eq!(fast_exponentiation(2, 10, u64::MAX), 1024);
}

#[test]
fn swing_of_empty_prime_list_is_one() {
    let primes: Vec<u64> = vec![];
    assert_eq!(swing(10, &primes), 1);
}

#[test]
fn swing_below_smallest_prime_is_one() {
    assert_eq!(swing(2, &sieve(3, 3)), 1);
}

#[test]
fn gamma_reaches_the_sieve_branch() {
    assert_eq!(ngamma(11), 3628800);
}

#[test]
fn gamma_of_integer_arguments() {
    assert_eq!(ngamma(5), 24);
    assert_eq!(ngamma(2), 1);
    assert_eq!(ngamma(1), 1);
    assert_eq!(ngamma(0), 1);
}

//! Binary (square-and-multiply) exponentiation, reduced by the modulus after
//! every multiplication. Each multiplication wraps at the 64-bit word, so for
//! a modulus whose square exceeds the word span the reduction no longer keeps
//! intermediates exact; the contracts pin the wrapped value in every case and
//! state true modular exponentiation where no product can wrap.

use vstd::calc;
use vstd::prelude::*;
use vstd::arithmetic::div_mod::{
    lemma_mod_division_less_than_divisor, lemma_mul_mod_noop_left, lemma_mul_mod_noop_right,
    lemma_small_mod,
};
use vstd::arithmetic::mul::lemma_mul_is_associative;
use vstd::arithmetic::power::{
    lemma_pow1, lemma_pow_adds, lemma_pow_mod_noop, lemma_pow_multiplies, lemma_square_is_pow2,
    pow,
};

verus! {

/// One more than `u64::MAX`: products of machine words wrap modulo this span.
pub open spec fn u64_span() -> int {
    0x1_0000_0000_0000_0000
}

/// The value the square-and-multiply loop computes from an accumulator, a
/// reduced base and a remaining exponent: on an odd exponent the accumulator
/// picks up the base, then the base is squared and the exponent halved, every
/// product wrapping at the word before the reduction by `modulus`.
pub open spec fn pow_mod_loop(acc: u64, base: u64, exponent: u64, modulus: u64) -> u64
    recommends
        modulus >= 1,
    decreases exponent,
{
    if exponent == 0 {
        acc
    } else {
        let acc2 = if exponent % 2 == 1 {
            acc.wrapping_mul(base) % modulus
        } else {
            acc
        };
        pow_mod_loop(acc2, base.wrapping_mul(base) % modulus, exponent / 2, modulus)
    }
}

/// `base^exponent` under `modulus`, as binary exponentiation computes it: the
/// loop above started from an accumulator of one and a base reduced once.
pub open spec fn pow_mod(base: u64, exponent: u64, modulus: u64) -> u64
    recommends
        modulus >= 1,
{
    pow_mod_loop(1, base % modulus, exponent, modulus)
}

/// `base^exponent mod modulus` in O(log exponent) multiplications by
/// square-and-multiply, each product reduced by `modulus`. Multiplications
/// wrap at the word, so the reduction bounds intermediates only while
/// `modulus * modulus` fits the word span; within that range the result is
/// true modular exponentiation (`lemma_pow_mod_is_modular`), and outside it
/// the wrapped value is still pinned exactly by `pow_mod`.
pub fn fast_exponentiation(base: u64, exponent: u64, modulus: u64) -> (r: u64)
    requires
        modulus >= 1,
    ensures
        r == pow_mod(base, exponent, modulus),
        exponent == 0 ==> r == 1,
{
    let mut result: u64 = 1;
    let mut b: u64 = base % modulus;
    let mut e: u64 = exponent;
    while e > 0
        invariant
            modulus >= 1,
            pow_mod_loop(result, b, e, modulus) == pow_mod(base, exponent, modulus),
        decreases e,
    {
        if e % 2 == 1 {
            result = result.wrapping_mul(b) % modulus;
        }
        b = b.wrapping_mul(b) % modulus;
        e = e / 2;
    }
    result
}

/// Once the modulus is one, any positive exponent drives the accumulator to
/// zero: the final multiply-in of the base is reduced by one.
proof fn lemma_pow_mod_loop_one(acc: u64, base: u64, exponent: u64)
    requires
        1 <= exponent,
    ensures
        pow_mod_loop(acc, base, exponent, 1) == 0,
    decreases exponent,
{
    let acc2 = if exponent % 2 == 1 {
        acc.wrapping_mul(base) % 1
    } else {
        acc
    };
    if exponent == 1 {
        assert(pow_mod_loop(acc, base, 1, 1) == pow_mod_loop(
            acc.wrapping_mul(base) % 1,
            base.wrapping_mul(base) % 1,
            0,
            1,
        ));
    } else {
        lemma_pow_mod_loop_one(acc2, base.wrapping_mul(base) % 1, exponent / 2);
    }
}

/// While accumulator and base stay below a modulus whose square fits the
/// word, no product wraps and the loop is plain modular exponentiation.
proof fn lemma_pow_mod_loop_modular(acc: u64, base: u64, exponent: u64, modulus: u64)
    requires
        1 <= modulus,
        modulus * modulus <= u64_span(),
        acc < modulus,
        base < modulus,
        1 <= exponent,
    ensures
        pow_mod_loop(acc, base, exponent, modulus) == (acc * pow(
            base as int,
            exponent as nat,
        )) % (modulus as int),
    decreases exponent,
{
    let m = modulus as int;
    let a = acc as int;
    let bs = base as int;
    let e = exponent as nat;
    assert((acc as nat) * (base as nat) < (modulus as nat) * (modulus as nat)) by (nonlinear_arith)
        requires
            acc < modulus,
            base < modulus,
    ;
    assert((base as nat) * (base as nat) < (modulus as nat) * (modulus as nat)) by (nonlinear_arith)
        requires
            base < modulus,
    ;
    lemma_small_mod((acc as nat) * (base as nat), 0x1_0000_0000_0000_0000);
    lemma_small_mod((base as nat) * (base as nat), 0x1_0000_0000_0000_0000);
    assert(acc.wrapping_mul(base) == a * bs);
    assert(base.wrapping_mul(base) == bs * bs);
    lemma_mod_division_less_than_divisor(a * bs, m);
    lemma_mod_division_less_than_divisor(bs * bs, m);
    let b2 = ((bs * bs) % m) as u64;
    if exponent == 1 {
        let acc2 = ((a * bs) % m) as u64;
        assert(pow_mod_loop(acc, base, 1, modulus) == pow_mod_loop(acc2, b2, 0, modulus));
        lemma_pow1(bs);
    } else {
        // the squared base stands for base^2 under the modulus
        lemma_square_is_pow2(bs);
        lemma_pow_multiplies(bs, 2, (e / 2) as nat);
        lemma_pow_mod_noop(bs * bs, (e / 2) as nat, m);
        if exponent % 2 == 0 {
            lemma_pow_mod_loop_modular(acc, b2, exponent / 2, modulus);
            calc! {
                (==)
                (a * pow(b2 as int, (e / 2) as nat)) % m; {
                    lemma_mul_mod_noop_right(a, pow(b2 as int, (e / 2) as nat), m);
                    lemma_mul_mod_noop_right(a, pow(bs * bs, (e / 2) as nat), m);
                }
                (a * pow(bs * bs, (e / 2) as nat)) % m; {
                    assert(pow(bs * bs, (e / 2) as nat) == pow(bs, e));
                }
                (a * pow(bs, e)) % m;
            }
        } else {
            let acc2 = ((a * bs) % m) as u64;
            lemma_pow_mod_loop_modular(acc2, b2, exponent / 2, modulus);
            calc! {
                (==)
                (acc2 as int * pow(b2 as int, (e / 2) as nat)) % m; {
                    lemma_mul_mod_noop_right(acc2 as int, pow(b2 as int, (e / 2) as nat), m);
                    lemma_mul_mod_noop_right(acc2 as int, pow(bs * bs, (e / 2) as nat), m);
                }
                (acc2 as int * pow(bs * bs, (e / 2) as nat)) % m; {
                    assert(pow(bs * bs, (e / 2) as nat) == pow(bs, (e - 1) as nat));
                }
                (acc2 as int * pow(bs, (e - 1) as nat)) % m; {
                    lemma_mul_mod_noop_left(a * bs, pow(bs, (e - 1) as nat), m);
                }
                ((a * bs) * pow(bs, (e - 1) as nat)) % m; {
                    lemma_mul_is_associative(a, bs, pow(bs, (e - 1) as nat));
                    lemma_pow_adds(bs, 1, (e - 1) as nat);
                    lemma_pow1(bs);
                    assert(bs * pow(bs, (e - 1) as nat) == pow(bs, e));
                }
                (a * pow(bs, e)) % m;
            }
        }
    }
}

/// For a positive exponent and a modulus whose square fits the word span,
/// fast exponentiation agrees with repeated multiplication reduced by the
/// modulus: `pow_mod(b, e, m) == b^e mod m`. Together with the `exponent == 0`
/// clause of `fast_exponentiation` this pins the whole no-wrap regime.
pub proof fn lemma_pow_mod_is_modular(base: u64, exponent: u64, modulus: u64)
    requires
        1 <= modulus,
        modulus * modulus <= u64_span(),
        1 <= exponent,
    ensures
        pow_mod(base, exponent, modulus) == pow(base as int, exponent as nat) % (modulus as int),
{
    let m = modulus as int;
    if modulus == 1 {
        lemma_pow_mod_loop_one(1, base % modulus, exponent);
        lemma_mod_division_less_than_divisor(pow(base as int, exponent as nat), 1);
    } else {
        lemma_mod_division_less_than_divisor(base as int, m);
        lemma_pow_mod_loop_modular(1, base % modulus, exponent, modulus);
        lemma_pow_mod_noop(base as int, exponent as nat, m);
        assert(1 * pow((base % modulus) as int, exponent as nat) == pow(
            (base % modulus) as int,
            exponent as nat,
        ));
    }
}

} // verus!

//! Exact factorials of unsigned 64-bit integers by the prime-swing method.
//!
//! The factorial of `n` is assembled from three verified pieces: a Sieve of
//! Eratosthenes that produces the odd primes up to `n + 1`, a swing product
//! that collects the odd-multiplicity prime factors of `n! / (floor(n/2)!)^2`,
//! and a bottom-up halving loop that composes those swings into the odd part
//! of `n!`. The factors of two, whose total count is `n` minus the population
//! count of `n` by Legendre's formula, are restored at the end with a fast
//! modular exponentiation. All arithmetic is over `u64` and wraps once values
//! outgrow the word; the contracts pin the wrapped value exactly and state the
//! true mathematical value wherever it fits.

pub mod bits;
pub mod exact;
pub mod factorial;
pub mod gamma;
pub mod powmod;
pub mod primes;
pub mod swing;

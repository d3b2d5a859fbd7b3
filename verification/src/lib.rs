//! Deterministic pseudo-random number generation.
//!
//! One 64-bit seed determines an entire output sequence. A seed expander
//! ([`split_mix::SplitMix`]) turns the seed into as many well-mixed 64-bit words as an
//! algorithm's state needs; four generator algorithms each produce a native
//! 64-bit word per step; fixed derivation rules turn that word into every
//! other primitive width. Every derivation rule and state transition is
//! stated exactly in the contracts, so that a given seed provably yields one
//! and only one sequence.

use vstd::prelude::*;

pub mod binomial_distribution;
pub mod distributions;
pub mod laws;
pub mod mersenne_twister;
pub mod msws;
pub mod random;
pub mod random_number;
pub mod seeds;
pub mod uniform_distribution;
pub mod split_mix;
pub mod xorshift_plus;
pub mod xoshiro_256ss;

use crate::mersenne_twister::MersenneTwister;
use crate::msws::MiddleSquaresWeylSequence;
use crate::random_number::RandomNumber;
use crate::xorshift_plus::XorshiftPlus;
use crate::xoshiro_256ss::Xoshiro256SS;

verus! {

/// 2^31. Primarily used to convert a random u32 into a bool. We compare the
/// random u32 to 2^31 instead of comparing it to 1 mod 2 because the highest
/// bit is usually of better quality than the lowest bit.
pub const TWO_31: u32 = 0x8000_0000;

/// 2^63. Primarily used to convert a random u64 into a bool. We compare the
/// random u64 to 2^63 instead of comparing it to 1 mod 2 because the highest
/// bit is usually of better quality than the lowest bit.
pub const TWO_63: u64 = 0x8000_0000_0000_0000;

/// Specifies how a random number generator can be initialized.
pub trait RandomNumberInit: Sized {
    /// Whether `self` is exactly the state that seeding with `seed` yields.
    /// For every implementation the predicate pins the whole state, so a
    /// seed determines one and only one generator.
    spec fn is_seeded(&self, seed: u64) -> bool;

    /// Creates a new random number generator, using the current time in
    /// nanoseconds as its seed. Sufficient in most situations where a
    /// repeatable sequence is not needed.
    fn new() -> (r: Self)
        ensures
            exists|seed: u64| r.is_seeded(seed),
    ;

    /// Supplies a chosen seed. The same seed always produces the same
    /// sequence of random numbers, which is useful for repeatable tests.
    fn from_seed(seed: u64) -> (r: Self)
        ensures
            r.is_seeded(seed),
    ;
}

/// List of implemented random number generator algorithms available for
/// selection. Used by [`new`] and [`from_seed`] to choose the specific
/// algorithm wanted.
#[derive(Clone, Copy, Debug, PartialEq, Eq, Structural)]
pub enum RandomNumberAlgorithm {
    MersenneTwister,
    MiddleSquareWeylSequence,
    XorshiftPlus,
    Xoshiro256SS,
}

/// The algorithm used when the caller names none: currently the best mix of
/// randomness and speed of the four.
pub const DEFAULT_RANDOM_NUMBER_ALGORITHM: RandomNumberAlgorithm =
    RandomNumberAlgorithm::Xoshiro256SS;

/// Whether generator `g` runs the given algorithm in exactly the state that
/// seeding with `seed` yields.
pub open spec fn is_seeded_with(
    g: RandomNumber,
    algorithm: RandomNumberAlgorithm,
    seed: u64,
) -> bool {
    match g {
        RandomNumber::MersenneTwister(mt) => algorithm
            == RandomNumberAlgorithm::MersenneTwister && mt.is_seeded(seed),
        RandomNumber::MiddleSquareWeylSequence(m) => algorithm
            == RandomNumberAlgorithm::MiddleSquareWeylSequence && m.is_seeded(seed),
        RandomNumber::XorshiftPlus(x) => algorithm == RandomNumberAlgorithm::XorshiftPlus
            && x.is_seeded(seed),
        RandomNumber::Xoshiro256SS(x) => algorithm == RandomNumberAlgorithm::Xoshiro256SS
            && x.is_seeded(seed),
    }
}

/// A generator seeded by any means is well formed.
pub proof fn lemma_seeded_wf(g: RandomNumber, algorithm: RandomNumberAlgorithm, seed: u64)
    requires
        is_seeded_with(g, algorithm, seed),
    ensures
        g@.wf(),
{
    match g {
        RandomNumber::MersenneTwister(mt) => {
            mersenne_twister::lemma_twisted_len(mersenne_twister::init_state(seed));
        },
        _ => {},
    }
}

/// Generates a new default random number generator seeded with the current
/// time in nanoseconds. The easiest way to get started using the library.
pub fn new_default() -> (r: RandomNumber)
    ensures
        r@.wf(),
        exists|seed: u64| is_seeded_with(r, DEFAULT_RANDOM_NUMBER_ALGORITHM, seed),
{
    new(DEFAULT_RANDOM_NUMBER_ALGORITHM)
}

/// Generates a new random number generator using the given algorithm,
/// seeded with the current time in nanoseconds.
pub fn new(algorithm: RandomNumberAlgorithm) -> (r: RandomNumber)
    ensures
        r@.wf(),
        exists|seed: u64| is_seeded_with(r, algorithm, seed),
{
    match algorithm {
        RandomNumberAlgorithm::MersenneTwister => {
            let mt = MersenneTwister::new();
            let r = RandomNumber::MersenneTwister(mt);
            proof {
                let seed = choose|seed: u64| mt.is_seeded(seed);
                assert(is_seeded_with(r, algorithm, seed));
                lemma_seeded_wf(r, algorithm, seed);
            }
            r
        },
        RandomNumberAlgorithm::MiddleSquareWeylSequence => {
            let m = MiddleSquaresWeylSequence::new();
            let r = RandomNumber::MiddleSquareWeylSequence(m);
            proof {
                let seed = choose|seed: u64| m.is_seeded(seed);
                assert(is_seeded_with(r, algorithm, seed));
            }
            r
        },
        RandomNumberAlgorithm::XorshiftPlus => {
            let x = XorshiftPlus::new();
            let r = RandomNumber::XorshiftPlus(x);
            proof {
                let seed = choose|seed: u64| x.is_seeded(seed);
                assert(is_seeded_with(r, algorithm, seed));
            }
            r
        },
        RandomNumberAlgorithm::Xoshiro256SS => {
            let x = Xoshiro256SS::new();
            let r = RandomNumber::Xoshiro256SS(x);
            proof {
                let seed = choose|seed: u64| x.is_seeded(seed);
                assert(is_seeded_with(r, algorithm, seed));
            }
            r
        },
    }
}

/// Generates a new default random number generator, seeded with the given
/// seed.
pub fn from_seed_default(seed: u64) -> (r: RandomNumber)
    ensures
        r@.wf(),
        is_seeded_with(r, DEFAULT_RANDOM_NUMBER_ALGORITHM, seed),
{
    from_seed(DEFAULT_RANDOM_NUMBER_ALGORITHM, seed)
}

/// Generates a new random number generator using the given algorithm,
/// seeded with the given seed.
pub fn from_seed(algorithm: RandomNumberAlgorithm, seed: u64) -> (r: RandomNumber)
    ensures
        r@.wf(),
        is_seeded_with(r, algorithm, seed),
{
    let r = match algorithm {
        RandomNumberAlgorithm::MersenneTwister => RandomNumber::MersenneTwister(
            MersenneTwister::from_seed(seed),
        ),
        RandomNumberAlgorithm::MiddleSquareWeylSequence => RandomNumber::MiddleSquareWeylSequence(
            MiddleSquaresWeylSequence::from_seed(seed),
        ),
        RandomNumberAlgorithm::XorshiftPlus => RandomNumber::XorshiftPlus(
            XorshiftPlus::from_seed(seed),
        ),
        RandomNumberAlgorithm::Xoshiro256SS => RandomNumber::Xoshiro256SS(
            Xoshiro256SS::from_seed(seed),
        ),
    };
    proof {
        lemma_seeded_wf(r, algorithm, seed);
    }
    r
}

/// A [`Random`] value over the default algorithm, seeded with the current
/// time in nanoseconds.
pub fn new_random() -> (r: crate::random::Random)
    ensures
        r.wf(),
        exists|seed: u64|
            is_seeded_with(r.uniform.random_number, DEFAULT_RANDOM_NUMBER_ALGORITHM, seed),
{
    crate::random::Random::new()
}

/// A [`Random`] value over the default algorithm with a chosen seed.
pub fn new_random_from_seed(seed: u64) -> (r: crate::random::Random)
    ensures
        r.wf(),
        is_seeded_with(r.uniform.random_number, DEFAULT_RANDOM_NUMBER_ALGORITHM, seed),
{
    crate::random::Random::from_seed(seed)
}

} // verus!

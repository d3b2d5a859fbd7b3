//! Random distributions over the generation contract, and utility
//! functions for constructing them.

use vstd::prelude::*;

use crate::uniform_distribution::Uniform;
use crate::DEFAULT_RANDOM_NUMBER_ALGORITHM;
use crate::RandomNumberAlgorithm;
use crate::is_seeded_with;

verus! {

/// Marks the parameter types a distribution can be queried with.
pub trait DistributionParams {

}

/// Defines a random distribution over a type `T`. Calling `sample` produces
/// a new instance of `T` and advances the distribution's generator.
pub trait SampleDistribution<T>: Sized {
    /// The states `sample` may be called in.
    spec fn sample_requires(&self) -> bool;

    /// Exactly which value `sample` returns and which state it leaves, as a
    /// function of the state it was called in.
    spec fn sample_ensures(&self, r: T, post: Self) -> bool;

    /// Draws one `T`.
    fn sample(&mut self) -> (r: T)
        requires
            old(self).sample_requires(),
        ensures
            old(self).sample_ensures(r, *final(self)),
    ;
}

/// The algorithm an optional selector names: the default when none is
/// given.
pub open spec fn chosen_algorithm(
    random_number_algorithm: Option<RandomNumberAlgorithm>,
) -> RandomNumberAlgorithm {
    match random_number_algorithm {
        Some(algorithm) => algorithm,
        None => DEFAULT_RANDOM_NUMBER_ALGORITHM,
    }
}

/// Defines sampling bounded to an interval of an ordered type. No
/// distribution implements it yet; it fixes the signature such a sampler
/// will have.
pub trait SampleIntervalDistribution<T: Ord> {
    /// Draws one `T` between `min` and `max`.
    fn sample_interval(&mut self, min: T, max: T) -> T;
}

/// A uniform distribution over the given algorithm, or over the default
/// algorithm when none is given, seeded with the current time in
/// nanoseconds.
pub fn new_uniform(random_number_algorithm: Option<RandomNumberAlgorithm>) -> (r: Uniform)
    ensures
        r.random_number@.wf(),
        exists|seed: u64|
            is_seeded_with(r.random_number, chosen_algorithm(random_number_algorithm), seed),
{
    match random_number_algorithm {
        Some(algorithm) => {
            let r = Uniform::new(algorithm);
            proof {
                let seed = choose|seed: u64| is_seeded_with(r.random_number, algorithm, seed);
                assert(is_seeded_with(r.random_number, algorithm, seed));
            }
            r
        },
        None => {
            let r = Uniform::new(DEFAULT_RANDOM_NUMBER_ALGORITHM);
            proof {
                let seed = choose|seed: u64|
                    is_seeded_with(r.random_number, DEFAULT_RANDOM_NUMBER_ALGORITHM, seed);
                assert(is_seeded_with(r.random_number, DEFAULT_RANDOM_NUMBER_ALGORITHM, seed));
            }
            r
        },
    }
}

/// A uniform distribution over the given algorithm, or over the default
/// algorithm when none is given, with a chosen seed.
pub fn from_seed_uniform(
    random_number_algorithm: Option<RandomNumberAlgorithm>,
    seed: u64,
) -> (r: Uniform)
    ensures
        r.random_number@.wf(),
        is_seeded_with(r.random_number, chosen_algorithm(random_number_algorithm), seed),
{
    match random_number_algorithm {
        Some(algorithm) => Uniform::from_seed(algorithm, seed),
        None => Uniform::from_seed(DEFAULT_RANDOM_NUMBER_ALGORITHM, seed),
    }
}

} // verus!

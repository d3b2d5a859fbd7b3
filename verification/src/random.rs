//! Easy, high-level access to random primitive values, without choosing a
//! distribution or an algorithm: one [`Random`] value wraps a uniform
//! distribution over the default algorithm.

use vstd::prelude::*;

use crate::distributions::from_seed_uniform;
use crate::distributions::new_uniform;
use crate::distributions::SampleDistribution;
use crate::is_seeded_with;
use crate::random_number::next_bool_value;
use crate::random_number::next_f32_bits_value;
use crate::random_number::next_f64_bits_value;
use crate::random_number::next_u128_step;
use crate::random_number::next_u128_value;
use crate::random_number::next_u16_value;
use crate::random_number::next_u32_value;
use crate::random_number::next_u64_step;
use crate::random_number::next_u64_value;
use crate::random_number::next_u8_value;
use crate::random_number::small_step;
use crate::uniform_distribution::Uniform;
use crate::DEFAULT_RANDOM_NUMBER_ALGORITHM;

verus! {

/// An abstraction on top of the [`Uniform`] distribution that makes random
/// primitive values easy to reach. The distribution and the algorithm are
/// fixed and hidden on purpose.
#[derive(Debug)]
pub struct Random {
    pub uniform: Uniform,
}

impl Random {
    /// The generator inside is always well formed.
    pub open spec fn wf(&self) -> bool {
        self.uniform.random_number@.wf()
    }

    /// Creates a new [`Random`] instance, seeded with the current time in
    /// nanoseconds. Sufficient for most use cases.
    pub fn new() -> (r: Random)
        ensures
            r.wf(),
            exists|seed: u64|
                is_seeded_with(r.uniform.random_number, DEFAULT_RANDOM_NUMBER_ALGORITHM, seed),
    {
        Random { uniform: new_uniform(None) }
    }

    /// Creates a new [`Random`] instance with the given seed. Useful for a
    /// repeatable "random" sequence of values.
    pub fn from_seed(seed: u64) -> (r: Random)
        ensures
            r.wf(),
            is_seeded_with(r.uniform.random_number, DEFAULT_RANDOM_NUMBER_ALGORITHM, seed),
    {
        Random { uniform: from_seed_uniform(None, seed) }
    }

    /// Returns a random bool.
    pub fn next_bool(&mut self) -> (r: bool)
        requires
            old(self).wf(),
        ensures
            final(self).wf(),
            r == next_bool_value(old(self).uniform.random_number@),
            final(self).uniform.random_number@ == small_step(old(self).uniform.random_number@),
    {
        self.uniform.sample()
    }

    /// Returns a random u8.
    pub fn next_u8(&mut self) -> (r: u8)
        requires
            old(self).wf(),
        ensures
            final(self).wf(),
            r == next_u8_value(old(self).uniform.random_number@),
            final(self).uniform.random_number@ == small_step(old(self).uniform.random_number@),
    {
        self.uniform.sample()
    }

    /// Returns a random i8.
    pub fn next_i8(&mut self) -> (r: i8)
        requires
            old(self).wf(),
        ensures
            final(self).wf(),
            r == next_u8_value(old(self).uniform.random_number@) as i8,
            final(self).uniform.random_number@ == small_step(old(self).uniform.random_number@),
    {
        self.uniform.sample()
    }

    /// Returns a random u16.
    pub fn next_u16(&mut self) -> (r: u16)
        requires
            old(self).wf(),
        ensures
            final(self).wf(),
            r == next_u16_value(old(self).uniform.random_number@),
            final(self).uniform.random_number@ == small_step(old(self).uniform.random_number@),
    {
        self.uniform.sample()
    }

    /// Returns a random i16.
    pub fn next_i16(&mut self) -> (r: i16)
        requires
            old(self).wf(),
        ensures
            final(self).wf(),
            r == next_u16_value(old(self).uniform.random_number@) as i16,
            final(self).uniform.random_number@ == small_step(old(self).uniform.random_number@),
    {
        self.uniform.sample()
    }

    /// Returns a random u32.
    pub fn next_u32(&mut self) -> (r: u32)
        requires
            old(self).wf(),
        ensures
            final(self).wf(),
            r == next_u32_value(old(self).uniform.random_number@),
            final(self).uniform.random_number@ == small_step(old(self).uniform.random_number@),
    {
        self.uniform.sample()
    }

    /// Returns a random i32.
    pub fn next_i32(&mut self) -> (r: i32)
        requires
            old(self).wf(),
        ensures
            final(self).wf(),
            r == next_u32_value(old(self).uniform.random_number@) as i32,
            final(self).uniform.random_number@ == small_step(old(self).uniform.random_number@),
    {
        self.uniform.sample()
    }

    /// Returns a random u64.
    pub fn next_u64(&mut self) -> (r: u64)
        requires
            old(self).wf(),
        ensures
            final(self).wf(),
            r == next_u64_value(old(self).uniform.random_number@),
            final(self).uniform.random_number@ == next_u64_step(old(self).uniform.random_number@),
    {
        self.uniform.sample()
    }

    /// Returns a random i64.
    pub fn next_i64(&mut self) -> (r: i64)
        requires
            old(self).wf(),
        ensures
            final(self).wf(),
            r == next_u64_value(old(self).uniform.random_number@) as i64,
            final(self).uniform.random_number@ == next_u64_step(old(self).uniform.random_number@),
    {
        self.uniform.sample()
    }

    /// Returns a random u128.
    pub fn next_u128(&mut self) -> (r: u128)
        requires
            old(self).wf(),
        ensures
            final(self).wf(),
            r == next_u128_value(old(self).uniform.random_number@),
            final(self).uniform.random_number@ == next_u128_step(old(self).uniform.random_number@),
    {
        self.uniform.sample()
    }

    /// Returns a random i128.
    pub fn next_i128(&mut self) -> (r: i128)
        requires
            old(self).wf(),
        ensures
            final(self).wf(),
            r == next_u128_value(old(self).uniform.random_number@) as i128,
            final(self).uniform.random_number@ == next_u128_step(old(self).uniform.random_number@),
    {
        self.uniform.sample()
    }

    /// The 23 bits of a random single-width value in [0, 1): always below
    /// 2^23.
    pub fn next_f32_bits(&mut self) -> (r: u32)
        requires
            old(self).wf(),
        ensures
            final(self).wf(),
            r == next_f32_bits_value(old(self).uniform.random_number@),
            r < 0x80_0000u32,
            final(self).uniform.random_number@ == small_step(old(self).uniform.random_number@),
    {
        self.uniform.sample_f32_bits()
    }

    /// The 53 bits of a random double-width value in [0, 1): always below
    /// 2^53.
    pub fn next_f64_bits(&mut self) -> (r: u64)
        requires
            old(self).wf(),
        ensures
            final(self).wf(),
            r == next_f64_bits_value(old(self).uniform.random_number@),
            r < 0x20_0000_0000_0000u64,
            final(self).uniform.random_number@ == next_u64_step(old(self).uniform.random_number@),
    {
        self.uniform.sample_f64_bits()
    }
}

} // verus!

//! The uniform distribution: typed sampling over one wrapped generator.

use vstd::prelude::*;

use crate::distributions::DistributionParams;
use crate::distributions::SampleDistribution;
use crate::from_seed;
use crate::is_seeded_with;
use crate::new;
use crate::random_number::next_bool_value;
use crate::random_number::next_f32_bits_value;
use crate::random_number::next_f64_bits_value;
use crate::random_number::next_u128_step;
use crate::random_number::next_u128_value;
use crate::random_number::next_u16_value;
use crate::random_number::next_u32_value;
use crate::random_number::next_u64_step;
use crate::random_number::next_u64_value;
use crate::random_number::next_u8_value;
use crate::random_number::small_step;
use crate::random_number::RandomNumber;
use crate::RandomNumberAlgorithm;

verus! {

/// A uniform distribution: it owns one generator and hands its draws out as
/// evenly distributed values of each primitive type.
#[derive(Debug)]
pub struct Uniform {
    pub random_number: RandomNumber,
}

/// Parameters of a uniform distribution over finitely many classes.
#[derive(Debug)]
pub struct DiscreteUniformParams {
    pub num_classes: u64,
}

impl DistributionParams for DiscreteUniformParams {

}

impl Uniform {
    /// A uniform distribution over the given algorithm, seeded with the
    /// current time in nanoseconds.
    pub fn new(random_algorithm: RandomNumberAlgorithm) -> (r: Uniform)
        ensures
            r.random_number@.wf(),
            exists|seed: u64| is_seeded_with(r.random_number, random_algorithm, seed),
    {
        Uniform { random_number: new(random_algorithm) }
    }

    /// A uniform distribution over the given algorithm with a chosen seed.
    pub fn from_seed(random_algorithm: RandomNumberAlgorithm, seed: u64) -> (r: Uniform)
        ensures
            r.random_number@.wf(),
            is_seeded_with(r.random_number, random_algorithm, seed),
    {
        Uniform { random_number: from_seed(random_algorithm, seed) }
    }

    /// The 23 bits of a single-width sample in [0, 1): always below 2^23.
    pub fn sample_f32_bits(&mut self) -> (r: u32)
        requires
            old(self).random_number@.wf(),
        ensures
            final(self).random_number@.wf(),
            r == next_f32_bits_value(old(self).random_number@),
            r < 0x80_0000u32,
            final(self).random_number@ == small_step(old(self).random_number@),
    {
        self.random_number.next_f32_bits()
    }

    /// The 53 bits of a double-width sample in [0, 1): always below 2^53.
    pub fn sample_f64_bits(&mut self) -> (r: u64)
        requires
            old(self).random_number@.wf(),
        ensures
            final(self).random_number@.wf(),
            r == next_f64_bits_value(old(self).random_number@),
            r < 0x20_0000_0000_0000u64,
            final(self).random_number@ == next_u64_step(old(self).random_number@),
    {
        self.random_number.next_f64_bits()
    }
}

impl SampleDistribution<bool> for Uniform {
    open spec fn sample_requires(&self) -> bool {
        self.random_number@.wf()
    }

    open spec fn sample_ensures(&self, r: bool, post: Uniform) -> bool {
        &&& r == next_bool_value(self.random_number@)
        &&& post.random_number@ == small_step(self.random_number@)
        &&& post.random_number@.wf()
    }

    fn sample(&mut self) -> (r: bool) {
        self.random_number.next_bool()
    }
}

impl SampleDistribution<u8> for Uniform {
    open spec fn sample_requires(&self) -> bool {
        self.random_number@.wf()
    }

    open spec fn sample_ensures(&self, r: u8, post: Uniform) -> bool {
        &&& r == next_u8_value(self.random_number@)
        &&& post.random_number@ == small_step(self.random_number@)
        &&& post.random_number@.wf()
    }

    fn sample(&mut self) -> (r: u8) {
        self.random_number.next_u8()
    }
}

impl SampleDistribution<i8> for Uniform {
    open spec fn sample_requires(&self) -> bool {
        self.random_number@.wf()
    }

    open spec fn sample_ensures(&self, r: i8, post: Uniform) -> bool {
        &&& r == next_u8_value(self.random_number@) as i8
        &&& post.random_number@ == small_step(self.random_number@)
        &&& post.random_number@.wf()
    }

    fn sample(&mut self) -> (r: i8) {
        self.random_number.next_i8()
    }
}

impl SampleDistribution<u16> for Uniform {
    open spec fn sample_requires(&self) -> bool {
        self.random_number@.wf()
    }

    open spec fn sample_ensures(&self, r: u16, post: Uniform) -> bool {
        &&& r == next_u16_value(self.random_number@)
        &&& post.random_number@ == small_step(self.random_number@)
        &&& post.random_number@.wf()
    }

    fn sample(&mut self) -> (r: u16) {
        self.random_number.next_u16()
    }
}

impl SampleDistribution<i16> for Uniform {
    open spec fn sample_requires(&self) -> bool {
        self.random_number@.wf()
    }

    open spec fn sample_ensures(&self, r: i16, post: Uniform) -> bool {
        &&& r == next_u16_value(self.random_number@) as i16
        &&& post.random_number@ == small_step(self.random_number@)
        &&& post.random_number@.wf()
    }

    fn sample(&mut self) -> (r: i16) {
        self.random_number.next_i16()
    }
}

impl SampleDistribution<u32> for Uniform {
    open spec fn sample_requires(&self) -> bool {
        self.random_number@.wf()
    }

    open spec fn sample_ensures(&self, r: u32, post: Uniform) -> bool {
        &&& r == next_u32_value(self.random_number@)
        &&& post.random_number@ == small_step(self.random_number@)
        &&& post.random_number@.wf()
    }

    fn sample(&mut self) -> (r: u32) {
        self.random_number.next_u32()
    }
}

impl SampleDistribution<i32> for Uniform {
    open spec fn sample_requires(&self) -> bool {
        self.random_number@.wf()
    }

    open spec fn sample_ensures(&self, r: i32, post: Uniform) -> bool {
        &&& r == next_u32_value(self.random_number@) as i32
        &&& post.random_number@ == small_step(self.random_number@)
        &&& post.random_number@.wf()
    }

    fn sample(&mut self) -> (r: i32) {
        self.random_number.next_i32()
    }
}

impl SampleDistribution<u64> for Uniform {
    open spec fn sample_requires(&self) -> bool {
        self.random_number@.wf()
    }

    open spec fn sample_ensures(&self, r: u64, post: Uniform) -> bool {
        &&& r == next_u64_value(self.random_number@)
        &&& post.random_number@ == next_u64_step(self.random_number@)
        &&& post.random_number@.wf()
    }

    fn sample(&mut self) -> (r: u64) {
        self.random_number.next_u64()
    }
}

impl SampleDistribution<i64> for Uniform {
    open spec fn sample_requires(&self) -> bool {
        self.random_number@.wf()
    }

    open spec fn sample_ensures(&self, r: i64, post: Uniform) -> bool {
        &&& r == next_u64_value(self.random_number@) as i64
        &&& post.random_number@ == next_u64_step(self.random_number@)
        &&& post.random_number@.wf()
    }

    fn sample(&mut self) -> (r: i64) {
        self.random_number.next_i64()
    }
}

impl SampleDistribution<u128> for Uniform {
    open spec fn sample_requires(&self) -> bool {
        self.random_number@.wf()
    }

    open spec fn sample_ensures(&self, r: u128, post: Uniform) -> bool {
        &&& r == next_u128_value(self.random_number@)
        &&& post.random_number@ == next_u128_step(self.random_number@)
        &&& post.random_number@.wf()
    }

    fn sample(&mut self) -> (r: u128) {
        self.random_number.next_u128()
    }
}

impl SampleDistribution<i128> for Uniform {
    open spec fn sample_requires(&self) -> bool {
        self.random_number@.wf()
    }

    open spec fn sample_ensures(&self, r: i128, post: Uniform) -> bool {
        &&& r == next_u128_value(self.random_number@) as i128
        &&& post.random_number@ == next_u128_step(self.random_number@)
        &&& post.random_number@.wf()
    }

    fn sample(&mut self) -> (r: i128) {
        self.random_number.next_i128()
    }
}

} // verus!

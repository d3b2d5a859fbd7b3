//! The Xorshift+ generator: two 64-bit state words.

use vstd::prelude::*;

use crate::split_mix;
use crate::split_mix::SplitMix;
use crate::RandomNumberInit;

verus! {

/// The xor-shift combination of the two state words that becomes the new
/// second word after a step.
pub open spec fn shuffled(a: u64, b: u64) -> u64 {
    let t1 = a ^ (a << 23u64);
    let t2 = t1 ^ (t1 >> 17u64);
    t2 ^ (b ^ (b >> 26u64))
}

/// The word a step returns: the new second word plus the old second word,
/// wrapping on overflow.
pub open spec fn step_output(a: u64, b: u64) -> u64 {
    shuffled(a, b).wrapping_add(b)
}

/// An Xorshift+ generator. Both words are drawn from the seed expander at
/// construction.
#[derive(Debug)]
pub struct XorshiftPlus {
    pub a_state: u64,
    pub b_state: u64,
}

impl RandomNumberInit for XorshiftPlus {
    open spec fn is_seeded(&self, seed: u64) -> bool {
        &&& self.a_state == split_mix::mix_output(seed)
        &&& self.b_state == split_mix::mix_output(split_mix::advanced(seed))
    }

    fn new() -> (r: XorshiftPlus)
        ensures
            exists|seed: u64| r.is_seeded(seed),
    {
        let mut expander = SplitMix::new();
        let ghost seed = expander.current_state;
        let r = xorshift_plus_from_split_mix(&mut expander);
        proof {
            assert(r.is_seeded(seed));
        }
        r
    }

    fn from_seed(seed: u64) -> (r: XorshiftPlus)
        ensures
            r.is_seeded(seed),
    {
        xorshift_plus_from_split_mix(&mut SplitMix::from_seed(seed))
    }
}

impl XorshiftPlus {
    /// One step: the first word is shifted and folded into the second, the
    /// words slide down, and the sum of the two pre-step words (after
    /// shuffling) is returned.
    pub fn next_u64(&mut self) -> (r: u64)
        ensures
            r == step_output(old(self).a_state, old(self).b_state),
            final(self).a_state == old(self).b_state,
            final(self).b_state == shuffled(old(self).a_state, old(self).b_state),
    {
        let mut t = self.a_state;
        let s = self.b_state;

        t = t ^ (t << 23u64);
        t = t ^ (t >> 17u64);
        t = t ^ (s ^ (s >> 26u64));

        self.a_state = s;
        self.b_state = t;

        t.wrapping_add(s)
    }

    /// The top 32 bits of the next word.
    pub fn next_u32(&mut self) -> (r: u32)
        ensures
            r == (step_output(old(self).a_state, old(self).b_state) >> 32) as u32,
            final(self).a_state == old(self).b_state,
            final(self).b_state == shuffled(old(self).a_state, old(self).b_state),
    {
        let word = self.next_u64();
        #[verifier::truncate] let r = (word >> 32) as u32;
        r
    }
}

/// Builds an Xorshift+ state from two consecutive expander words.
pub fn xorshift_plus_from_split_mix(split_mix: &mut SplitMix) -> (r: XorshiftPlus)
    ensures
        r.a_state == split_mix::mix_output(old(split_mix).current_state),
        r.b_state == split_mix::mix_output(split_mix::advanced(old(split_mix).current_state)),
        final(split_mix).current_state == split_mix::advanced(
            split_mix::advanced(old(split_mix).current_state),
        ),
{
    let a_state = split_mix.next_u64();
    let b_state = split_mix.next_u64();
    XorshiftPlus { a_state, b_state }
}

} // verus!

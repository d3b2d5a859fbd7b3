//! The seed expander: a SplitMix64 generator.
//!
//! It deterministically expands one 64-bit seed into an arbitrarily long
//! sequence of well-mixed 64-bit words. Every multi-word generator in this
//! crate bootstraps its state from consecutive outputs of this expander.

use vstd::prelude::*;

use crate::seeds;
use crate::RandomNumberInit;

verus! {

/// The golden-ratio increment added to the state after each output.
pub const INCREMENT: u64 = 0x9E3779B97f4A7C15;

/// First mixing shift.
pub const MIX_SHIFT_1: u64 = 30;

/// First mixing multiplier.
pub const MIX_MULTIPLIER_1: u64 = 0xBF58476D1CE4E5B9;

/// Second mixing shift.
pub const MIX_SHIFT_2: u64 = 27;

/// Second mixing multiplier.
pub const MIX_MULTIPLIER_2: u64 = 0x94D049BB133111EB;

/// Final mixing shift.
pub const MIX_SHIFT_3: u64 = 31;

/// The word that mixing a given state value yields: two rounds of
/// xor-shift-multiply followed by a final xor-shift, all wrapping.
pub open spec fn mix_output(s: u64) -> u64 {
    let n1 = (s ^ (s >> MIX_SHIFT_1)).wrapping_mul(MIX_MULTIPLIER_1);
    let n2 = (n1 ^ (n1 >> MIX_SHIFT_2)).wrapping_mul(MIX_MULTIPLIER_2);
    n2 ^ (n2 >> MIX_SHIFT_3)
}

/// The state that follows a given state: the golden-ratio increment is
/// added, wrapping on overflow.
pub open spec fn advanced(s: u64) -> u64 {
    s.wrapping_add(INCREMENT)
}

/// A SplitMix64 seed expander. Its whole state is one 64-bit accumulator,
/// advanced once per word produced.
#[derive(Debug)]
pub struct SplitMix {
    pub current_state: u64,
}

impl RandomNumberInit for SplitMix {
    open spec fn is_seeded(&self, seed: u64) -> bool {
        self.current_state == seed
    }

    fn new() -> (r: SplitMix)
        ensures
            exists|seed: u64| r.is_seeded(seed),
    {
        let seed = seeds::current_nanos();
        let r = SplitMix { current_state: seed };
        proof {
            assert(r.is_seeded(seed));
        }
        r
    }

    fn from_seed(seed: u64) -> (r: SplitMix)
        ensures
            r.is_seeded(seed),
    {
        SplitMix { current_state: seed }
    }
}

impl SplitMix {
    /// Produces the next expanded word: the mix of the current state. The
    /// state advances by the golden-ratio increment, so that seed 0 yields 0
    /// first and leaves the state at exactly the increment.
    pub fn next_u64(&mut self) -> (r: u64)
        ensures
            r == mix_output(old(self).current_state),
            final(self).current_state == advanced(old(self).current_state),
    {
        mix(self)
    }

    /// The top 32 bits of the next expanded word.
    pub fn next_u32(&mut self) -> (r: u32)
        ensures
            r == (mix_output(old(self).current_state) >> 32) as u32,
            final(self).current_state == advanced(old(self).current_state),
    {
        let word = self.next_u64();
        #[verifier::truncate] let r = (word >> 32) as u32;
        r
    }
}

/// Mixing the zero state yields zero, and the state advances to exactly
/// the golden-ratio increment: the pinned first step of the expander.
pub proof fn lemma_zero_seed_first_output()
    ensures
        mix_output(0) == 0,
        advanced(0) == INCREMENT,
{
    assert((0u64 ^ (0u64 >> MIX_SHIFT_1)) == 0) by (bit_vector);
    assert(0u64.wrapping_mul(MIX_MULTIPLIER_1) == 0);
    assert((0u64 ^ (0u64 >> MIX_SHIFT_2)) == 0) by (bit_vector);
    assert(0u64.wrapping_mul(MIX_MULTIPLIER_2) == 0);
    assert((0u64 ^ (0u64 >> MIX_SHIFT_3)) == 0) by (bit_vector);
}

/// Mixes the current state into an output word and advances the state.
pub fn mix(split_mix: &mut SplitMix) -> (r: u64)
    ensures
        r == mix_output(old(split_mix).current_state),
        final(split_mix).current_state == advanced(old(split_mix).current_state),
{
    let mut n = split_mix.current_state;

    split_mix.current_state = n.wrapping_add(INCREMENT);

    n = (n ^ (n >> MIX_SHIFT_1)).wrapping_mul(MIX_MULTIPLIER_1);
    n = (n ^ (n >> MIX_SHIFT_2)).wrapping_mul(MIX_MULTIPLIER_2);
    n ^ (n >> MIX_SHIFT_3)
}

} // verus!

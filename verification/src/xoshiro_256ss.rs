//! The Xoshiro256** generator: four 64-bit state words.
//!
//! Each step scrambles the second word into the output and runs the
//! xoshiro256 linear state update. The output is computed from the word as
//! it stood before the update.

use vstd::prelude::*;

use crate::split_mix;
use crate::split_mix::SplitMix;
use crate::RandomNumberInit;

verus! {

/// `n` rotated left by `k` bits, for 0 < k < 64.
pub open spec fn rotated_left(n: u64, k: u64) -> u64 {
    (n << k) | (n >> ((64 - k) as u64))
}

/// The word a step returns: the second state word scrambled by two
/// multiplications around a 7-bit rotation.
pub open spec fn step_output(s: Seq<u64>) -> u64 {
    rotated_left(s[1].wrapping_mul(5), 7).wrapping_mul(9)
}

/// The state after one step: the xoshiro256 linear update, an XOR shuffle of
/// the four words followed by a left-shift XOR into word 2 and a 45-bit
/// rotation of word 3.
pub open spec fn stepped(s: Seq<u64>) -> Seq<u64> {
    let t = s[1] << 17u64;
    let s2a = s[2] ^ s[0];
    let s3a = s[3] ^ s[1];
    let s1a = s[1] ^ s2a;
    let s0a = s[0] ^ s3a;
    seq![s0a, s1a, s2a ^ t, rotated_left(s3a, 45)]
}

/// The four expander words that seed a xoshiro256 state.
pub open spec fn seeded_words(seed: u64) -> Seq<u64> {
    let s1 = split_mix::advanced(seed);
    let s2 = split_mix::advanced(s1);
    let s3 = split_mix::advanced(s2);
    seq![
        split_mix::mix_output(seed),
        split_mix::mix_output(s1),
        split_mix::mix_output(s2),
        split_mix::mix_output(s3),
    ]
}

/// A Xoshiro256** generator. All four words are drawn from the seed
/// expander at construction.
#[derive(Debug)]
pub struct Xoshiro256SS {
    pub state_array: [u64; 4],
}

/// The same generator under the name its earlier revision used.
pub type XoshiroSS = Xoshiro256SS;

impl RandomNumberInit for Xoshiro256SS {
    open spec fn is_seeded(&self, seed: u64) -> bool {
        self.state_array@ == seeded_words(seed)
    }

    fn new() -> (r: Xoshiro256SS)
        ensures
            exists|seed: u64| r.is_seeded(seed),
    {
        let mut expander = SplitMix::new();
        let ghost seed = expander.current_state;
        let r = xoshiro_ss_from_split_mix(&mut expander);
        proof {
            assert(r.is_seeded(seed));
        }
        r
    }

    fn from_seed(seed: u64) -> (r: Xoshiro256SS)
        ensures
            r.is_seeded(seed),
    {
        xoshiro_ss_from_split_mix(&mut SplitMix::from_seed(seed))
    }
}

impl Xoshiro256SS {
    /// One step: returns the scrambled second word and runs the linear
    /// state update.
    pub fn next_u64(&mut self) -> (r: u64)
        ensures
            r == step_output(old(self).state_array@),
            final(self).state_array@ == stepped(old(self).state_array@),
    {
        let result = rol(self.state_array[1].wrapping_mul(5), 7).wrapping_mul(9);

        let t = self.state_array[1] << 17u64;

        self.state_array[2] = self.state_array[2] ^ self.state_array[0];
        self.state_array[3] = self.state_array[3] ^ self.state_array[1];
        self.state_array[1] = self.state_array[1] ^ self.state_array[2];
        self.state_array[0] = self.state_array[0] ^ self.state_array[3];

        self.state_array[2] = self.state_array[2] ^ t;
        self.state_array[3] = rol(self.state_array[3], 45);

        proof {
            assert(self.state_array@ =~= stepped(old(self).state_array@));
        }

        result
    }

    /// The top 32 bits of the next word.
    pub fn next_u32(&mut self) -> (r: u32)
        ensures
            r == (step_output(old(self).state_array@) >> 32) as u32,
            final(self).state_array@ == stepped(old(self).state_array@),
    {
        let word = self.next_u64();
        #[verifier::truncate] let r = (word >> 32) as u32;
        r
    }
}

/// Builds a xoshiro256 state from four consecutive expander words.
pub fn xoshiro_ss_from_split_mix(split_mix: &mut SplitMix) -> (r: Xoshiro256SS)
    ensures
        r.state_array@ == seeded_words(old(split_mix).current_state),
        final(split_mix).current_state == split_mix::advanced(
            split_mix::advanced(
                split_mix::advanced(split_mix::advanced(old(split_mix).current_state)),
            ),
        ),
{
    let w0 = split_mix.next_u64();
    let w1 = split_mix.next_u64();
    let w2 = split_mix.next_u64();
    let w3 = split_mix.next_u64();
    let r = Xoshiro256SS { state_array: [w0, w1, w2, w3] };
    proof {
        assert(r.state_array@ =~= seeded_words(old(split_mix).current_state));
    }
    r
}

/// `n` rotated left by `k` bits. The two shifts meet only for rotations
/// strictly inside the word, so `k` must stay between 1 and 63.
pub fn rol(n: u64, k: u64) -> (r: u64)
    requires
        0 < k < 64,
    ensures
        r == rotated_left(n, k),
{
    (n << k) | (n >> (64 - k))
}

} // verus!

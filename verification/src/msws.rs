//! The Middle Square Weyl Sequence generator.
//!
//! The state is a square accumulator `x` and a Weyl counter `w`. Each cycle
//! squares `x`, adds the advancing Weyl counter, and rotates the result by
//! 32 bits to bring the well-mixed middle digits down; the low 32 bits of
//! the rotated value form one 32-bit draw. A fresh state is warmed up by
//! discarding a fixed number of cycles, which the published algorithm needs
//! to escape poor initial states.

use vstd::prelude::*;

use crate::split_mix;
use crate::split_mix::SplitMix;
use crate::RandomNumberInit;
use crate::TWO_31;

verus! {

/// Number of warm-up iterations run at construction. Each iteration
/// discards one 64-bit draw and one double-width draw, four cycles in all.
pub const INIT_CALLS: u64 = 10;

/// The Weyl sequence increment.
pub const WEYL_INCREMENT: u64 = 0x9f32e1cbc5e1374b;

/// Cycles of warm-up a fresh state discards before its first output.
pub const WARM_UP_CYCLES: u64 = 40;

/// The state after the square-and-add half of a cycle: `x` is squared, the
/// Weyl counter advances, and the counter is folded into `x`, all wrapping.
pub open spec fn updated(m: MiddleSquaresWeylSequence) -> MiddleSquaresWeylSequence {
    let w2 = m.w.wrapping_add(WEYL_INCREMENT);
    MiddleSquaresWeylSequence { x: m.x.wrapping_mul(m.x).wrapping_add(w2), w: w2 }
}

/// The state after the extraction half of a cycle: `x` rotated by 32 bits,
/// so its middle digits become the low half.
pub open spec fn extracted(m: MiddleSquaresWeylSequence) -> MiddleSquaresWeylSequence {
    MiddleSquaresWeylSequence { x: (m.x >> 32u64) | (m.x << 32u64), w: m.w }
}

/// One full cycle: square-and-add, then extract.
pub open spec fn cycled(m: MiddleSquaresWeylSequence) -> MiddleSquaresWeylSequence {
    extracted(updated(m))
}

/// The state after `n` full cycles.
pub open spec fn cycled_n(m: MiddleSquaresWeylSequence, n: nat) -> MiddleSquaresWeylSequence
    decreases n,
{
    if n == 0 {
        m
    } else {
        cycled(cycled_n(m, (n - 1) as nat))
    }
}

/// The 32-bit draw one cycle from `m` yields: the low half of the rotated
/// accumulator.
pub open spec fn u32_value(m: MiddleSquaresWeylSequence) -> u32 {
    cycled(m).x as u32
}

/// The 64-bit draw two cycles from `m` yield: the first 32-bit draw in the
/// high half, the second in the low half.
pub open spec fn u64_value(m: MiddleSquaresWeylSequence) -> u64 {
    ((u32_value(m) as u64) << 32u64) | (u32_value(cycled(m)) as u64)
}

/// The 53-bit double-width draw two cycles from `m` yield: the two
/// unrotated accumulators XORed and shifted down by 11 bits. This path
/// deliberately advances the state twice per value, unlike the integer
/// path, to feed extra state into the wider mantissa.
pub open spec fn f64_bits_value(m: MiddleSquaresWeylSequence) -> u64 {
    let u1 = updated(m);
    let m2 = updated(cycled(m));
    (u1.x ^ extracted(m2).x) >> 11u64
}

/// The state `msws_from_split_mix` hands out for two given expander words:
/// the raw words, warmed up by the fixed number of cycles.
pub open spec fn warmed(x: u64, w: u64) -> MiddleSquaresWeylSequence {
    cycled_n(MiddleSquaresWeylSequence { x: x, w: w }, WARM_UP_CYCLES as nat)
}

/// A Middle Square Weyl Sequence generator.
#[derive(Debug)]
pub struct MiddleSquaresWeylSequence {
    pub x: u64,
    pub w: u64,
}

impl RandomNumberInit for MiddleSquaresWeylSequence {
    open spec fn is_seeded(&self, seed: u64) -> bool {
        *self == warmed(
            split_mix::mix_output(seed),
            split_mix::mix_output(split_mix::advanced(seed)),
        )
    }

    fn new() -> (r: MiddleSquaresWeylSequence)
        ensures
            exists|seed: u64| r.is_seeded(seed),
    {
        let mut expander = SplitMix::new();
        let ghost seed = expander.current_state;
        let r = msws_from_split_mix(&mut expander);
        proof {
            assert(r.is_seeded(seed));
        }
        r
    }

    fn from_seed(seed: u64) -> (r: MiddleSquaresWeylSequence)
        ensures
            r.is_seeded(seed),
    {
        msws_from_split_mix(&mut SplitMix::from_seed(seed))
    }
}

impl MiddleSquaresWeylSequence {
    /// A random bool: whether the top bit of the next 32-bit draw is set.
    pub fn next_bool(&mut self) -> (r: bool)
        ensures
            r == (u32_value(*old(self)) >= TWO_31),
            *final(self) == cycled(*old(self)),
    {
        self.next_u32() >= TWO_31
    }

    /// The top 8 bits of the next 32-bit draw.
    pub fn next_u8(&mut self) -> (r: u8)
        ensures
            r == (u32_value(*old(self)) >> 24) as u8,
            *final(self) == cycled(*old(self)),
    {
        let draw = self.next_u32();
        #[verifier::truncate] let r = (draw >> 24) as u8;
        r
    }

    /// The top 16 bits of the next 32-bit draw.
    pub fn next_u16(&mut self) -> (r: u16)
        ensures
            r == (u32_value(*old(self)) >> 16) as u16,
            *final(self) == cycled(*old(self)),
    {
        let draw = self.next_u32();
        #[verifier::truncate] let r = (draw >> 16) as u16;
        r
    }

    /// One cycle: square-and-add, extract the middle, and return the low
    /// 32 bits of the rotated accumulator.
    pub fn next_u32(&mut self) -> (r: u32)
        ensures
            r == u32_value(*old(self)),
            *final(self) == cycled(*old(self)),
    {
        update_state(self);

        extract_middle(self);

        #[verifier::truncate] let r = self.x as u32;
        r
    }

    /// Two consecutive 32-bit draws, the first in the high half.
    pub fn next_u64(&mut self) -> (r: u64)
        ensures
            r == u64_value(*old(self)),
            *final(self) == cycled(cycled(*old(self))),
    {
        let high = self.next_u32();
        let low = self.next_u32();
        ((high as u64) << 32u64) | (low as u64)
    }

    /// The 53 bits feeding a double-width value in [0, 1): two full cycles
    /// run, and the two unrotated accumulators are XORed and shifted down
    /// by 11 bits.
    pub fn next_f64_bits(&mut self) -> (r: u64)
        ensures
            r == f64_bits_value(*old(self)),
            r < 0x20_0000_0000_0000u64,
            *final(self) == cycled(cycled(*old(self))),
    {
        update_state(self);

        let xx = self.x;

        extract_middle(self);

        update_state(self);

        extract_middle(self);

        let x2 = self.x;
        let r = (xx ^ x2) >> 11u64;
        proof {
            assert(r < 0x20_0000_0000_0000u64) by (bit_vector)
                requires
                    r == (xx ^ x2) >> 11u64,
            ;
        }
        r
    }
}

/// Builds a warmed-up state from two consecutive expander words.
pub fn msws_from_split_mix(split_mix: &mut SplitMix) -> (r: MiddleSquaresWeylSequence)
    ensures
        r == warmed(
            split_mix::mix_output(old(split_mix).current_state),
            split_mix::mix_output(split_mix::advanced(old(split_mix).current_state)),
        ),
        final(split_mix).current_state == split_mix::advanced(
            split_mix::advanced(old(split_mix).current_state),
        ),
{
    let x = split_mix.next_u64();
    let w = split_mix.next_u64();
    let mut msws = MiddleSquaresWeylSequence { x, w };

    init_msws(&mut msws);

    msws
}

/// Warms a fresh state up: each iteration discards one 64-bit draw and one
/// double-width draw, so the state leaves its poorly mixed starting region
/// before the first real output.
pub fn init_msws(msws: &mut MiddleSquaresWeylSequence)
    ensures
        *final(msws) == cycled_n(*old(msws), WARM_UP_CYCLES as nat),
{
    let mut calls: u64 = 0;
    while calls < INIT_CALLS
        invariant
            calls <= INIT_CALLS,
            *msws == cycled_n(*old(msws), (4 * calls) as nat),
        decreases INIT_CALLS - calls,
    {
        let ghost done = (4 * calls) as nat;
        let _ = msws.next_u64();
        proof {
            assert(cycled_n(*old(msws), done + 1) == cycled(cycled_n(*old(msws), done)));
            assert(cycled_n(*old(msws), done + 2) == cycled(cycled_n(*old(msws), done + 1)));
        }
        let _ = msws.next_f64_bits();
        proof {
            assert(cycled_n(*old(msws), done + 3) == cycled(cycled_n(*old(msws), done + 2)));
            assert(cycled_n(*old(msws), done + 4) == cycled(cycled_n(*old(msws), done + 3)));
        }
        calls = calls + 1;
    }
}

/// The square-and-add half of a cycle.
pub fn update_state(msws: &mut MiddleSquaresWeylSequence)
    ensures
        *final(msws) == updated(*old(msws)),
{
    msws.x = msws.x.wrapping_mul(msws.x);
    msws.w = msws.w.wrapping_add(WEYL_INCREMENT);
    msws.x = msws.x.wrapping_add(msws.w);
}

/// The extraction half of a cycle: the accumulator rotated by 32 bits.
pub fn extract_middle(msws: &mut MiddleSquaresWeylSequence)
    ensures
        *final(msws) == extracted(*old(msws)),
{
    msws.x = (msws.x >> 32u64) | (msws.x << 32u64);
}

} // verus!

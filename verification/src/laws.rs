//! The laws the generation contract obeys, stated once over the
//! mathematical model and proved for every algorithm at once.

use vstd::prelude::*;

use crate::is_seeded_with;
use crate::random_number::next_bool_value;
use crate::random_number::next_f32_bits_value;
use crate::random_number::next_f64_bits_value;
use crate::random_number::next_u16_value;
use crate::random_number::next_u32_value;
use crate::random_number::next_u64_step;
use crate::random_number::next_u64_value;
use crate::random_number::next_u8_value;
use crate::random_number::GeneratorState;
use crate::random_number::RandomNumber;
use crate::msws;
use crate::split_mix;
use crate::xorshift_plus;
use crate::xoshiro_256ss;
use crate::RandomNumberAlgorithm;
use crate::TWO_63;

verus! {

/// The `n`-th native 64-bit word a generator in state `s` produces, counted
/// from 0.
pub open spec fn nth_u64_value(s: GeneratorState, n: nat) -> u64
    decreases n,
{
    if n == 0 {
        next_u64_value(s)
    } else {
        nth_u64_value(next_u64_step(s), (n - 1) as nat)
    }
}

/// Seeding is deterministic: two generators constructed independently from
/// the same algorithm and the same seed are in the same state.
pub proof fn lemma_seeding_deterministic(
    g1: RandomNumber,
    g2: RandomNumber,
    algorithm: RandomNumberAlgorithm,
    seed: u64,
)
    requires
        is_seeded_with(g1, algorithm, seed),
        is_seeded_with(g2, algorithm, seed),
    ensures
        g1@ == g2@,
{
}

/// Determinism: two generators constructed independently from the same
/// algorithm and the same seed produce identical native words at every
/// position, and hence identical sequences for any number of draws.
pub proof fn lemma_determinism(
    g1: RandomNumber,
    g2: RandomNumber,
    algorithm: RandomNumberAlgorithm,
    seed: u64,
    n: nat,
)
    requires
        is_seeded_with(g1, algorithm, seed),
        is_seeded_with(g2, algorithm, seed),
    ensures
        nth_u64_value(g1@, n) == nth_u64_value(g2@, n),
{
    lemma_seeding_deterministic(g1, g2, algorithm, seed);
}

/// Derivation consistency for bools: for every algorithm, the next bool is
/// set exactly when the next native 64-bit word would be at least 2^63,
/// also where the bool is drawn from a narrower native output.
pub proof fn lemma_bool_derivation(s: GeneratorState)
    ensures
        next_bool_value(s) == (next_u64_value(s) >= TWO_63),
{
    match s {
        GeneratorState::MiddleSquareWeylSequence { state } => {
            let a = msws::u32_value(state);
            let b = msws::u32_value(msws::cycled(state));
            assert((((a as u64) << 32u64) | (b as u64) >= 0x8000_0000_0000_0000u64) == (a
                >= 0x8000_0000u32)) by (bit_vector);
        },
        _ => {},
    }
}

/// Derivation consistency for 32-bit draws: for every algorithm, the next
/// u32 is the top 32 bits of the next native 64-bit word.
pub proof fn lemma_u32_derivation(s: GeneratorState)
    ensures
        next_u32_value(s) == (next_u64_value(s) >> 32) as u32,
{
    match s {
        GeneratorState::MiddleSquareWeylSequence { state } => {
            let a = msws::u32_value(state);
            let b = msws::u32_value(msws::cycled(state));
            assert(((((a as u64) << 32u64) | (b as u64)) >> 32) as u32 == a) by (bit_vector);
        },
        _ => {},
    }
}

/// Derivation consistency for 8-bit draws: for every algorithm, the next
/// u8 is the top 8 bits of the next 32-bit draw.
pub proof fn lemma_u8_derivation(s: GeneratorState)
    ensures
        next_u8_value(s) == (next_u32_value(s) >> 24) as u8,
{
    match s {
        GeneratorState::MiddleSquareWeylSequence { state } => {},
        _ => {
            let w = next_u64_value(s);
            assert((w >> 56) as u8 == (((w >> 32) as u32) >> 24) as u8) by (bit_vector);
        },
    }
}

/// Derivation consistency for 16-bit draws: for every algorithm, the next
/// u16 is the top 16 bits of the next 32-bit draw.
pub proof fn lemma_u16_derivation(s: GeneratorState)
    ensures
        next_u16_value(s) == (next_u32_value(s) >> 16) as u16,
{
    match s {
        GeneratorState::MiddleSquareWeylSequence { state } => {},
        _ => {
            let w = next_u64_value(s);
            assert((w >> 48) as u16 == (((w >> 32) as u32) >> 16) as u16) by (bit_vector);
        },
    }
}

/// The bits of every single-width unit-interval draw stay below 2^23, so
/// the scaled value lies in [0, 1) for every algorithm and every state.
pub proof fn lemma_f32_bits_in_unit_range(s: GeneratorState)
    ensures
        next_f32_bits_value(s) < 0x80_0000u32,
{
    let d = next_u32_value(s);
    assert(d >> 9u32 < 0x80_0000u32) by (bit_vector);
}

/// The bits of every double-width unit-interval draw stay below 2^53, so
/// the scaled value lies in [0, 1) for every algorithm and every state.
pub proof fn lemma_f64_bits_in_unit_range(s: GeneratorState)
    ensures
        next_f64_bits_value(s) < 0x20_0000_0000_0000u64,
{
    match s {
        GeneratorState::MiddleSquareWeylSequence { state } => {
            let x1 = msws::updated(state).x;
            let x2 = msws::extracted(msws::updated(msws::cycled(state))).x;
            assert((x1 ^ x2) >> 11u64 < 0x20_0000_0000_0000u64) by (bit_vector);
        },
        _ => {
            let w = next_u64_value(s);
            assert(w >> 11u64 < 0x20_0000_0000_0000u64) by (bit_vector);
        },
    }
}

/// The pinned regression vector of the Xorshift+ generator: seeded with 0,
/// its first native word is 14141672521104462240.
pub proof fn lemma_pinned_xorshift_plus(g: RandomNumber)
    requires
        is_seeded_with(g, RandomNumberAlgorithm::XorshiftPlus, 0),
    ensures
        next_u64_value(g@) == 14141672521104462240u64,
{
    match g {
        RandomNumber::XorshiftPlus(x) => {
            assert(split_mix::mix_output(0) == 0) by (bit_vector);
            assert(split_mix::mix_output(split_mix::advanced(0)) == 16294208416658607535u64)
                by (bit_vector);
            assert(xorshift_plus::step_output(0u64, 16294208416658607535u64)
                == 14141672521104462240u64) by (bit_vector);
        },
        _ => {},
    }
}

/// The pinned regression vector of the Xoshiro256** generator: seeded with
/// 0, its first native word is 16053376993090331485.
pub proof fn lemma_pinned_xoshiro_256ss(g: RandomNumber)
    requires
        is_seeded_with(g, RandomNumberAlgorithm::Xoshiro256SS, 0),
    ensures
        next_u64_value(g@) == 16053376993090331485u64,
{
    match g {
        RandomNumber::Xoshiro256SS(x) => {
            let w1 = x.state_array@[1];
            assert(w1 == split_mix::mix_output(split_mix::advanced(0)));
            assert(split_mix::mix_output(split_mix::advanced(0)) == 16294208416658607535u64)
                by (bit_vector);
            assert(xoshiro_256ss::rotated_left(w1.wrapping_mul(5), 7).wrapping_mul(9)
                == 16053376993090331485u64) by (bit_vector)
                requires
                    w1 == 16294208416658607535u64,
            ;
        },
        _ => {},
    }
}

} // verus!

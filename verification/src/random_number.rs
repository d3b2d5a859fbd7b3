//! The generator contract: one value that can hold any of the four
//! algorithms and produces every primitive width from the native 64-bit
//! word by fixed derivation rules.
//!
//! The mathematical model is [`GeneratorState`], the view of a generator:
//! for each operation a `..._value` spec function gives the value drawn and
//! a step spec function gives the state left behind, so every contract pins
//! both exactly.
//!
//! The derivation rules take the top bits of the native word (the highest
//! bits are of the best quality in most generators): `u8` is the top 8 bits,
//! `u16` the top 16, `u32` the top 32; a `bool` is the top bit; signed
//! values reinterpret the unsigned ones; `u128` concatenates two
//! consecutive words, the first on top. The Middle Square Weyl Sequence
//! overrides the 32-bit-and-below rules to draw from its native 32-bit
//! output instead.

use vstd::prelude::*;

use crate::mersenne_twister;
use crate::mersenne_twister::MersenneTwister;
use crate::msws;
use crate::msws::MiddleSquaresWeylSequence;
use crate::xorshift_plus;
use crate::xorshift_plus::XorshiftPlus;
use crate::xoshiro_256ss;
use crate::xoshiro_256ss::Xoshiro256SS;
use crate::TWO_31;
use crate::TWO_63;

verus! {

/// A random number generator: one of the four algorithms, exposing the
/// shared generation contract. Callers program against this type rather
/// than against a concrete algorithm.
#[derive(Debug)]
pub enum RandomNumber {
    MersenneTwister(MersenneTwister),
    MiddleSquareWeylSequence(MiddleSquaresWeylSequence),
    XorshiftPlus(XorshiftPlus),
    Xoshiro256SS(Xoshiro256SS),
}

/// The mathematical state of a generator: what the contracts quantify over.
pub enum GeneratorState {
    MersenneTwister { index: int, words: Seq<u64> },
    MiddleSquareWeylSequence { state: MiddleSquaresWeylSequence },
    XorshiftPlus { a_state: u64, b_state: u64 },
    Xoshiro256SS { words: Seq<u64> },
}

impl GeneratorState {
    /// The structural bounds every reachable generator state satisfies.
    pub open spec fn wf(self) -> bool {
        match self {
            GeneratorState::MersenneTwister { index, words } => {
                &&& words.len() == mersenne_twister::WORD_COUNT
                &&& 0 <= index <= mersenne_twister::WORD_COUNT
            },
            GeneratorState::MiddleSquareWeylSequence { state } => true,
            GeneratorState::XorshiftPlus { a_state, b_state } => true,
            GeneratorState::Xoshiro256SS { words } => words.len() == 4,
        }
    }
}

impl View for RandomNumber {
    type V = GeneratorState;

    open spec fn view(&self) -> GeneratorState {
        match self {
            RandomNumber::MersenneTwister(mt) => GeneratorState::MersenneTwister {
                index: mt.index as int,
                words: mt.mt_array@,
            },
            RandomNumber::MiddleSquareWeylSequence(m) => GeneratorState::MiddleSquareWeylSequence {
                state: *m,
            },
            RandomNumber::XorshiftPlus(x) => GeneratorState::XorshiftPlus {
                a_state: x.a_state,
                b_state: x.b_state,
            },
            RandomNumber::Xoshiro256SS(x) => GeneratorState::Xoshiro256SS {
                words: x.state_array@,
            },
        }
    }
}

/// The native 64-bit word the next draw returns.
pub open spec fn next_u64_value(s: GeneratorState) -> u64 {
    match s {
        GeneratorState::MersenneTwister { index, words } => {
            if index >= mersenne_twister::WORD_COUNT {
                mersenne_twister::tempered(mersenne_twister::twisted(words)[0])
            } else {
                mersenne_twister::tempered(words[index])
            }
        },
        GeneratorState::MiddleSquareWeylSequence { state } => msws::u64_value(state),
        GeneratorState::XorshiftPlus { a_state, b_state } => xorshift_plus::step_output(
            a_state,
            b_state,
        ),
        GeneratorState::Xoshiro256SS { words } => xoshiro_256ss::step_output(words),
    }
}

/// The state left after one native 64-bit draw.
pub open spec fn next_u64_step(s: GeneratorState) -> GeneratorState {
    match s {
        GeneratorState::MersenneTwister { index, words } => {
            let arr = if index >= mersenne_twister::WORD_COUNT {
                mersenne_twister::twisted(words)
            } else {
                words
            };
            let idx = if index >= mersenne_twister::WORD_COUNT {
                0int
            } else {
                index
            };
            GeneratorState::MersenneTwister { index: idx + 1, words: arr }
        },
        GeneratorState::MiddleSquareWeylSequence { state } => {
            GeneratorState::MiddleSquareWeylSequence { state: msws::cycled(msws::cycled(state)) }
        },
        GeneratorState::XorshiftPlus { a_state, b_state } => GeneratorState::XorshiftPlus {
            a_state: b_state,
            b_state: xorshift_plus::shuffled(a_state, b_state),
        },
        GeneratorState::Xoshiro256SS { words } => GeneratorState::Xoshiro256SS {
            words: xoshiro_256ss::stepped(words),
        },
    }
}

/// The state left after one draw of 32 bits or less. The Middle Square Weyl
/// Sequence spends a single cycle on such a draw; every other algorithm
/// consumes one full native word.
pub open spec fn small_step(s: GeneratorState) -> GeneratorState {
    match s {
        GeneratorState::MiddleSquareWeylSequence { state } => {
            GeneratorState::MiddleSquareWeylSequence { state: msws::cycled(state) }
        },
        _ => next_u64_step(s),
    }
}

/// The next 32-bit draw: the top 32 bits of the native word, except that
/// the Middle Square Weyl Sequence produces 32 bits natively.
pub open spec fn next_u32_value(s: GeneratorState) -> u32 {
    match s {
        GeneratorState::MiddleSquareWeylSequence { state } => msws::u32_value(state),
        _ => (next_u64_value(s) >> 32) as u32,
    }
}

/// The next bool: whether the top bit of the next draw is set.
pub open spec fn next_bool_value(s: GeneratorState) -> bool {
    match s {
        GeneratorState::MiddleSquareWeylSequence { state } => msws::u32_value(state) >= TWO_31,
        _ => next_u64_value(s) >= TWO_63,
    }
}

/// The next 8-bit draw: the top 8 bits of the next native draw.
pub open spec fn next_u8_value(s: GeneratorState) -> u8 {
    match s {
        GeneratorState::MiddleSquareWeylSequence { state } => (msws::u32_value(state) >> 24) as u8,
        _ => (next_u64_value(s) >> 56) as u8,
    }
}

/// The next 16-bit draw: the top 16 bits of the next native draw.
pub open spec fn next_u16_value(s: GeneratorState) -> u16 {
    match s {
        GeneratorState::MiddleSquareWeylSequence { state } => (msws::u32_value(state) >> 16) as u16,
        _ => (next_u64_value(s) >> 48) as u16,
    }
}

/// The next 128-bit draw: two consecutive native words, the first in the
/// high half.
pub open spec fn next_u128_value(s: GeneratorState) -> u128 {
    ((next_u64_value(s) as u128) << 64u128) | (next_u64_value(next_u64_step(s)) as u128)
}

/// The state left after a 128-bit draw: two native draws.
pub open spec fn next_u128_step(s: GeneratorState) -> GeneratorState {
    next_u64_step(next_u64_step(s))
}

/// The 23 bits feeding a single-width value in [0, 1): the top 23 bits of
/// the next 32-bit draw.
pub open spec fn next_f32_bits_value(s: GeneratorState) -> u32 {
    next_u32_value(s) >> 9u32
}

/// The 53 bits feeding a double-width value in [0, 1): the top 53 bits of
/// the native word, except that the Middle Square Weyl Sequence runs its
/// own double-width rule.
pub open spec fn next_f64_bits_value(s: GeneratorState) -> u64 {
    match s {
        GeneratorState::MiddleSquareWeylSequence { state } => msws::f64_bits_value(state),
        _ => next_u64_value(s) >> 11u64,
    }
}

impl RandomNumber {
    /// Returns a random bool.
    pub fn next_bool(&mut self) -> (r: bool)
        requires
            old(self)@.wf(),
        ensures
            final(self)@.wf(),
            r == next_bool_value(old(self)@),
            final(self)@ == small_step(old(self)@),
    {
        match self {
            RandomNumber::MiddleSquareWeylSequence(m) => m.next_bool(),
            g => g.next_u64() >= TWO_63,
        }
    }

    /// Returns a random u8.
    pub fn next_u8(&mut self) -> (r: u8)
        requires
            old(self)@.wf(),
        ensures
            final(self)@.wf(),
            r == next_u8_value(old(self)@),
            final(self)@ == small_step(old(self)@),
    {
        match self {
            RandomNumber::MiddleSquareWeylSequence(m) => m.next_u8(),
            g => {
                let word = g.next_u64();
                #[verifier::truncate] let r = (word >> 56) as u8;
                r
            },
        }
    }

    /// Returns a random i8: the next u8 reinterpreted.
    pub fn next_i8(&mut self) -> (r: i8)
        requires
            old(self)@.wf(),
        ensures
            final(self)@.wf(),
            r == next_u8_value(old(self)@) as i8,
            final(self)@ == small_step(old(self)@),
    {
        let draw = self.next_u8();
        #[verifier::truncate] let r = draw as i8;
        r
    }

    /// Returns a random u16.
    pub fn next_u16(&mut self) -> (r: u16)
        requires
            old(self)@.wf(),
        ensures
            final(self)@.wf(),
            r == next_u16_value(old(self)@),
            final(self)@ == small_step(old(self)@),
    {
        match self {
            RandomNumber::MiddleSquareWeylSequence(m) => m.next_u16(),
            g => {
                let word = g.next_u64();
                #[verifier::truncate] let r = (word >> 48) as u16;
                r
            },
        }
    }

    /// Returns a random i16: the next u16 reinterpreted.
    pub fn next_i16(&mut self) -> (r: i16)
        requires
            old(self)@.wf(),
        ensures
            final(self)@.wf(),
            r == next_u16_value(old(self)@) as i16,
            final(self)@ == small_step(old(self)@),
    {
        let draw = self.next_u16();
        #[verifier::truncate] let r = draw as i16;
        r
    }

    /// Returns a random u32.
    pub fn next_u32(&mut self) -> (r: u32)
        requires
            old(self)@.wf(),
        ensures
            final(self)@.wf(),
            r == next_u32_value(old(self)@),
            final(self)@ == small_step(old(self)@),
    {
        match self {
            RandomNumber::MiddleSquareWeylSequence(m) => m.next_u32(),
            g => {
                let word = g.next_u64();
                #[verifier::truncate] let r = (word >> 32) as u32;
                r
            },
        }
    }

    /// Returns a random i32: the next u32 reinterpreted.
    pub fn next_i32(&mut self) -> (r: i32)
        requires
            old(self)@.wf(),
        ensures
            final(self)@.wf(),
            r == next_u32_value(old(self)@) as i32,
            final(self)@ == small_step(old(self)@),
    {
        let draw = self.next_u32();
        #[verifier::truncate] let r = draw as i32;
        r
    }

    /// Returns a random u64: the native word of the chosen algorithm.
    pub fn next_u64(&mut self) -> (r: u64)
        requires
            old(self)@.wf(),
        ensures
            final(self)@.wf(),
            r == next_u64_value(old(self)@),
            final(self)@ == next_u64_step(old(self)@),
    {
        match self {
            RandomNumber::MersenneTwister(mt) => mt.next_u64(),
            RandomNumber::MiddleSquareWeylSequence(m) => m.next_u64(),
            RandomNumber::XorshiftPlus(x) => x.next_u64(),
            RandomNumber::Xoshiro256SS(x) => x.next_u64(),
        }
    }

    /// Returns a random i64: the next u64 reinterpreted.
    pub fn next_i64(&mut self) -> (r: i64)
        requires
            old(self)@.wf(),
        ensures
            final(self)@.wf(),
            r == next_u64_value(old(self)@) as i64,
            final(self)@ == next_u64_step(old(self)@),
    {
        let draw = self.next_u64();
        #[verifier::truncate] let r = draw as i64;
        r
    }

    /// Returns a random u128: two consecutive native words, the first
    /// strictly before the second and forming the high half.
    pub fn next_u128(&mut self) -> (r: u128)
        requires
            old(self)@.wf(),
        ensures
            final(self)@.wf(),
            r == next_u128_value(old(self)@),
            final(self)@ == next_u128_step(old(self)@),
    {
        let high = self.next_u64();
        let low = self.next_u64();
        ((high as u128) << 64u128) | (low as u128)
    }

    /// Returns a random i128: the next u128 reinterpreted.
    pub fn next_i128(&mut self) -> (r: i128)
        requires
            old(self)@.wf(),
        ensures
            final(self)@.wf(),
            r == next_u128_value(old(self)@) as i128,
            final(self)@ == next_u128_step(old(self)@),
    {
        let draw = self.next_u128();
        #[verifier::truncate] let r = draw as i128;
        r
    }

    /// Returns the 23 bits of a single-width value in [0, 1): always below
    /// 2^23, so the scaled value stays below one.
    pub fn next_f32_bits(&mut self) -> (r: u32)
        requires
            old(self)@.wf(),
        ensures
            final(self)@.wf(),
            r == next_f32_bits_value(old(self)@),
            r < 0x80_0000u32,
            final(self)@ == small_step(old(self)@),
    {
        let draw = self.next_u32();
        let r = draw >> 9u32;
        proof {
            assert(r < 0x80_0000u32) by (bit_vector)
                requires
                    r == draw >> 9u32,
            ;
        }
        r
    }

    /// Returns the 53 bits of a double-width value in [0, 1): always below
    /// 2^53, so the scaled value stays below one.
    pub fn next_f64_bits(&mut self) -> (r: u64)
        requires
            old(self)@.wf(),
        ensures
            final(self)@.wf(),
            r == next_f64_bits_value(old(self)@),
            r < 0x20_0000_0000_0000u64,
            final(self)@ == next_u64_step(old(self)@),
    {
        match self {
            RandomNumber::MiddleSquareWeylSequence(m) => m.next_f64_bits(),
            g => {
                let word = g.next_u64();
                let r = word >> 11u64;
                proof {
                    assert(r < 0x20_0000_0000_0000u64) by (bit_vector)
                        requires
                            r == word >> 11u64,
                    ;
                }
                r
            },
        }
    }

    /// Returns a random usize: the draw of the width matching the target
    /// pointer width.
    pub fn next_usize(&mut self) -> (r: usize)
        requires
            old(self)@.wf(),
        ensures
            final(self)@.wf(),
            usize::BITS == 64 ==> r == next_u64_value(old(self)@) as usize && final(self)@
                == next_u64_step(old(self)@),
            usize::BITS == 32 ==> r == next_u32_value(old(self)@) as usize && final(self)@
                == small_step(old(self)@),
    {
        if usize::BITS == 64 {
            let word = self.next_u64();
            #[verifier::truncate] let r = word as usize;
            r
        } else {
            let draw = self.next_u32();
            #[verifier::truncate] let r = draw as usize;
            r
        }
    }
}

} // verus!

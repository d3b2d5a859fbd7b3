//! A 64-bit Mersenne Twister.
//!
//! The state is an array of 312 words, refreshed ("twisted") as a whole
//! every 312 draws. Each draw returns one tempered state word.

use vstd::prelude::*;

use crate::seeds;
use crate::RandomNumberInit;

verus! {

/// Number of bits the twister is implemented for.
pub const WORD_BITS: u64 = 64;

/// Size of the state array.
pub const WORD_COUNT: usize = 312;

/// Offset of the word each twisted word is combined with.
pub const MIDDLE_OFFSET: usize = 156;

/// Mask of the 31 low bits taken from the following word during a twist.
pub const LOWER_MASK: u64 = 0x7FFF_FFFF;

/// Mask of the 33 high bits kept from each word during a twist.
pub const UPPER_MASK: u64 = 0xFFFF_FFFF_8000_0000;

/// The twist matrix constant.
pub const MATRIX_CONSTANT: u64 = 0xB5026F5AA96619E9;

/// First tempering shift (right).
pub const TEMPERING_SHIFT_U: u64 = 29;

/// Mask applied with the first tempering shift.
pub const TEMPERING_MASK_D: u64 = 0x5555555555555555;

/// Second tempering shift (left).
pub const TEMPERING_SHIFT_S: u64 = 17;

/// Mask applied with the second tempering shift.
pub const TEMPERING_MASK_B: u64 = 0x71D67FFFEDA60000;

/// Third tempering shift (left).
pub const TEMPERING_SHIFT_T: u64 = 37;

/// Mask applied with the third tempering shift.
pub const TEMPERING_MASK_C: u64 = 0xFFF7EEE000000000;

/// Final tempering shift (right).
pub const TEMPERING_SHIFT_L: u64 = 43;

/// The multiplier of the seed-initialization recurrence.
pub const INIT_MULTIPLIER: u64 = 6364136223846793005;

/// The word that follows `prev` in the seed-initialization recurrence for
/// index `idx`, all arithmetic wrapping.
pub open spec fn init_next(prev: u64, idx: u64) -> u64 {
    INIT_MULTIPLIER.wrapping_mul(prev ^ (prev >> 62)).wrapping_add(idx)
}

/// The word at index `i` of the seed-initialization recurrence: the seed at
/// index 0, then each word derived from its predecessor.
pub open spec fn init_word(seed: u64, i: int) -> u64
    decreases i,
{
    if i <= 0 {
        seed
    } else {
        init_next(init_word(seed, i - 1), i as u64)
    }
}

/// The full state that seeding yields before the first twist. The
/// initialization recurrence fills indices 0 through 310 only; the last
/// array slot keeps its zero initialization. (That quirk is part of the
/// generator's fixed output: "repairing" it would silently change every
/// downstream value.)
pub open spec fn init_state(seed: u64) -> Seq<u64> {
    Seq::new(WORD_COUNT as nat, |i: int| if i == WORD_COUNT - 1 { 0u64 } else { init_word(seed, i) })
}

/// One step of the twist: the word at index `i` is replaced by the word a
/// middle offset ahead, XORed with a shifted combination of the high bits of
/// word `i` and the low bits of word `i + 1`. Indices wrap around the array,
/// and later steps read words already rewritten by earlier ones.
pub open spec fn twist_step(s: Seq<u64>, i: int) -> Seq<u64> {
    let x = (((s[i] & UPPER_MASK) + (s[(i + 1) % (WORD_COUNT as int)] & LOWER_MASK)) as u64);
    let x_a = if x % 2 == 1 {
        (x >> 1u64) ^ MATRIX_CONSTANT
    } else {
        x >> 1u64
    };
    s.update(i, s[(i + MIDDLE_OFFSET as int) % (WORD_COUNT as int)] ^ x_a)
}

/// The state after the first `n` twist steps have run.
pub open spec fn twist_upto(s: Seq<u64>, n: int) -> Seq<u64>
    decreases n,
{
    if n <= 0 {
        s
    } else {
        twist_step(twist_upto(s, n - 1), n - 1)
    }
}

/// A full twist: steps 0 through 310 in order. Like the initialization
/// loop, the twist stops one index short of the array's end.
pub open spec fn twisted(s: Seq<u64>) -> Seq<u64> {
    twist_upto(s, WORD_COUNT - 1)
}

/// Each twist step rewrites one word in place, so any prefix of the twist
/// keeps the array's length.
pub proof fn lemma_twist_upto_len(s: Seq<u64>, n: int)
    requires
        0 <= n <= s.len(),
    ensures
        twist_upto(s, n).len() == s.len(),
    decreases n,
{
    if n > 0 {
        lemma_twist_upto_len(s, n - 1);
    }
}

/// A full twist keeps the array's length.
pub proof fn lemma_twisted_len(s: Seq<u64>)
    requires
        s.len() == WORD_COUNT,
    ensures
        twisted(s).len() == WORD_COUNT,
{
    lemma_twist_upto_len(s, WORD_COUNT - 1);
}

/// The tempered form of a raw state word: a fixed sequence of
/// XOR-with-shifted-and-masked-self operations.
pub open spec fn tempered(y: u64) -> u64 {
    let t1 = y ^ ((y >> TEMPERING_SHIFT_U) & TEMPERING_MASK_D);
    let t2 = t1 ^ ((t1 << TEMPERING_SHIFT_S) & TEMPERING_MASK_B);
    let t3 = t2 ^ ((t2 << TEMPERING_SHIFT_T) & TEMPERING_MASK_C);
    t3 ^ (t3 >> TEMPERING_SHIFT_L)
}

/// A 64-bit Mersenne Twister: 312 state words and a cursor over them.
#[derive(Debug)]
pub struct MersenneTwister {
    pub index: usize,
    pub mt_array: Vec<u64>,
}

impl MersenneTwister {
    /// The state array always holds exactly 312 words, and the cursor never
    /// runs more than one buffer past them.
    pub open spec fn wf(&self) -> bool {
        &&& self.mt_array@.len() == WORD_COUNT
        &&& self.index <= WORD_COUNT
    }

    /// Returns the next tempered word. When the cursor has consumed all 312
    /// words the state is twisted again and the cursor restarts at 0.
    pub fn next_u64(&mut self) -> (r: u64)
        requires
            old(self).wf(),
        ensures
            final(self).wf(),
            ({
                let arr = if old(self).index >= WORD_COUNT {
                    twisted(old(self).mt_array@)
                } else {
                    old(self).mt_array@
                };
                let idx = if old(self).index >= WORD_COUNT {
                    0int
                } else {
                    old(self).index as int
                };
                &&& r == tempered(arr[idx])
                &&& final(self).mt_array@ == arr
                &&& final(self).index == idx + 1
            }),
    {
        if self.index >= WORD_COUNT {
            twist_mt_array(&mut self.mt_array);
            self.index = 0;
        }

        let y = self.mt_array[self.index];
        self.index = self.index + 1;

        temper(y)
    }

    /// The top 32 bits of the next word.
    pub fn next_u32(&mut self) -> (r: u32)
        requires
            old(self).wf(),
        ensures
            final(self).wf(),
            ({
                let arr = if old(self).index >= WORD_COUNT {
                    twisted(old(self).mt_array@)
                } else {
                    old(self).mt_array@
                };
                let idx = if old(self).index >= WORD_COUNT {
                    0int
                } else {
                    old(self).index as int
                };
                &&& r == (tempered(arr[idx]) >> 32) as u32
                &&& final(self).mt_array@ == arr
                &&& final(self).index == idx + 1
            }),
    {
        let word = self.next_u64();
        #[verifier::truncate] let r = (word >> 32) as u32;
        r
    }
}

impl RandomNumberInit for MersenneTwister {
    open spec fn is_seeded(&self, seed: u64) -> bool {
        &&& self.index == 0
        &&& self.mt_array@ == twisted(init_state(seed))
    }

    fn new() -> (r: MersenneTwister)
        ensures
            exists|seed: u64| r.is_seeded(seed),
    {
        let seed = seeds::current_nanos();
        let r = MersenneTwister::from_seed(seed);
        proof {
            assert(r.is_seeded(seed));
        }
        r
    }

    fn from_seed(seed: u64) -> (r: MersenneTwister)
        ensures
            r.is_seeded(seed),
    {
        let mut mta: Vec<u64> = vec_of_zeros();

        init_mt_array(seed, &mut mta);
        proof {
            assert(mta@ =~= init_state(seed));
        }
        twist_mt_array(&mut mta);

        MersenneTwister { index: 0, mt_array: mta }
    }
}

/// A fresh zero state array of 312 words.
fn vec_of_zeros() -> (r: Vec<u64>)
    ensures
        r@ == Seq::new(WORD_COUNT as nat, |i: int| 0u64),
{
    let mut r: Vec<u64> = Vec::new();
    while r.len() < WORD_COUNT
        invariant
            r@.len() <= WORD_COUNT,
            forall|i: int| 0 <= i < r@.len() ==> r@[i] == 0u64,
        decreases WORD_COUNT - r@.len(),
    {
        r.push(0u64);
    }
    proof {
        assert(r@ =~= Seq::new(WORD_COUNT as nat, |i: int| 0u64));
    }
    r
}

/// Fills the array from a seed: the seed at index 0, then each word derived
/// from its predecessor by the initialization recurrence. The loop stops one
/// slot short, so the last word keeps whatever value the array held.
#[verifier::rlimit(50)]
pub fn init_mt_array(seed: u64, mt_array: &mut Vec<u64>)
    requires
        old(mt_array)@.len() == WORD_COUNT,
    ensures
        final(mt_array)@.len() == WORD_COUNT,
        forall|i: int| 0 <= i < WORD_COUNT - 1 ==> #[trigger] final(mt_array)@[i] == init_word(seed, i),
        final(mt_array)@[WORD_COUNT - 1] == old(mt_array)@[WORD_COUNT - 1],
{
    mt_array[0] = seed;
    let mut idx: usize = 1;
    while idx < WORD_COUNT - 1
        invariant
            mt_array@.len() == WORD_COUNT,
            1 <= idx <= WORD_COUNT - 1,
            forall|i: int| 0 <= i < idx ==> #[trigger] mt_array@[i] == init_word(seed, i),
            mt_array@[WORD_COUNT - 1] == old(mt_array)@[WORD_COUNT - 1],
        decreases WORD_COUNT - idx,
    {
        let prev = mt_array[idx - 1];
        mt_array[idx] = INIT_MULTIPLIER.wrapping_mul(prev ^ (prev >> (WORD_BITS - 2))).wrapping_add(idx as u64);
        idx = idx + 1;
    }
}

/// Runs a full twist over the array: steps 0 through 310 in order, each
/// rewriting one word in place.
pub fn twist_mt_array(mt_array: &mut Vec<u64>)
    requires
        old(mt_array)@.len() == WORD_COUNT,
    ensures
        final(mt_array)@.len() == WORD_COUNT,
        final(mt_array)@ == twisted(old(mt_array)@),
{
    let mut idx: usize = 0;
    while idx < WORD_COUNT - 1
        invariant
            mt_array@.len() == WORD_COUNT,
            0 <= idx <= WORD_COUNT - 1,
            mt_array@ == twist_upto(old(mt_array)@, idx as int),
        decreases WORD_COUNT - idx,
    {
        let hi = mt_array[idx] & UPPER_MASK;
        let lo = mt_array[(idx + 1) % WORD_COUNT] & LOWER_MASK;
        proof {
            lemma_masked_sum_fits(mt_array@[idx as int], mt_array@[(idx as int + 1) % (WORD_COUNT as int)]);
        }
        let x = hi + lo;
        let mut x_a = x >> 1u64;
        if x % 2 == 1 {
            x_a = x_a ^ MATRIX_CONSTANT;
        }

        mt_array[idx] = mt_array[(idx + MIDDLE_OFFSET) % WORD_COUNT] ^ x_a;
        idx = idx + 1;
    }
}

/// The high bits kept from one word and the low bits of the next come from
/// disjoint masks, so their sum never overflows a u64.
proof fn lemma_masked_sum_fits(a: u64, b: u64)
    ensures
        (a & UPPER_MASK) + (b & LOWER_MASK) <= u64::MAX,
{
    assert((a & 0xFFFF_FFFF_8000_0000u64) + (b & 0x7FFF_FFFFu64) <= u64::MAX) by (bit_vector);
}

/// Tempers a raw state word for output.
pub fn temper(y: u64) -> (r: u64)
    ensures
        r == tempered(y),
{
    let mut t = y ^ ((y >> TEMPERING_SHIFT_U) & TEMPERING_MASK_D);
    t = t ^ ((t << TEMPERING_SHIFT_S) & TEMPERING_MASK_B);
    t = t ^ ((t << TEMPERING_SHIFT_T) & TEMPERING_MASK_C);
    t ^ (t >> TEMPERING_SHIFT_L)
}

} // verus!

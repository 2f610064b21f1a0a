//! Deterministic pseudo-random generator.
//!
//! Each scanline seeds its own generator from the caller-supplied 256-bit
//! seed, so a render is a pure function of its inputs and rows may be
//! scheduled in any order without changing the image.

use vstd::prelude::*;

use crate::fx::SCALE;

verus! {

/// Multiplier and increment of the underlying congruential step.
pub const RNG_MUL: u64 = 6364136223846793005;

pub const RNG_INC: u64 = 1442695040888963407;

/// State a generator falls back to when the seed folds to zero.
pub const RNG_FALLBACK: u64 = 0x9E3779B97F4A7C15;

/// One state transition.
pub open spec fn spec_rng_step(s: u64) -> u64 {
    s.wrapping_mul(RNG_MUL).wrapping_add(RNG_INC)
}

/// The output drawn from a state: the state folded over its high bits.
pub open spec fn spec_rng_out(s: u64) -> u64 {
    s ^ (s >> 33)
}

/// A 64-bit word from eight seed bytes, least significant first.
pub open spec fn spec_word(b0: u8, b1: u8, b2: u8, b3: u8, b4: u8, b5: u8, b6: u8, b7: u8) -> u64 {
    ((b0 as int) + 256 * ((b1 as int) + 256 * ((b2 as int) + 256 * ((b3 as int) + 256 * ((
    b4 as int) + 256 * ((b5 as int) + 256 * ((b6 as int) + 256 * (b7 as int)))))))) as u64
}

/// The initial state from a 256-bit seed: the four words folded together,
/// with a fixed non-zero fallback for a seed that folds to zero.
pub open spec fn spec_seed_state(seed: [u8; 32]) -> u64 {
    let w0 = spec_word(
        seed[0],
        seed[1],
        seed[2],
        seed[3],
        seed[4],
        seed[5],
        seed[6],
        seed[7],
    );
    let w1 = spec_word(
        seed[8],
        seed[9],
        seed[10],
        seed[11],
        seed[12],
        seed[13],
        seed[14],
        seed[15],
    );
    let w2 = spec_word(
        seed[16],
        seed[17],
        seed[18],
        seed[19],
        seed[20],
        seed[21],
        seed[22],
        seed[23],
    );
    let w3 = spec_word(
        seed[24],
        seed[25],
        seed[26],
        seed[27],
        seed[28],
        seed[29],
        seed[30],
        seed[31],
    );
    let folded = w0 ^ (w1.wrapping_mul(3)) ^ (w2.wrapping_mul(5)) ^ (w3.wrapping_mul(7));
    if folded == 0 {
        RNG_FALLBACK
    } else {
        folded
    }
}

/// An explicitly-seeded deterministic generator.
#[derive(Clone, Copy, PartialEq, Eq, Structural, Debug)]
pub struct Rng {
    pub state: u64,
}

fn word(b0: u8, b1: u8, b2: u8, b3: u8, b4: u8, b5: u8, b6: u8, b7: u8) -> (r: u64)
    ensures
        r == spec_word(b0, b1, b2, b3, b4, b5, b6, b7),
{
    (b0 as u64) + 256 * ((b1 as u64) + 256 * ((b2 as u64) + 256 * ((b3 as u64) + 256 * ((
    b4 as u64) + 256 * ((b5 as u64) + 256 * ((b6 as u64) + 256 * (b7 as u64)))))))
}

impl Rng {
    pub fn from_seed(seed: &[u8; 32]) -> (r: Rng)
        ensures
            r.state == spec_seed_state(*seed),
    {
        let w0 = word(
            seed[0],
            seed[1],
            seed[2],
            seed[3],
            seed[4],
            seed[5],
            seed[6],
            seed[7],
        );
        let w1 = word(
            seed[8],
            seed[9],
            seed[10],
            seed[11],
            seed[12],
            seed[13],
            seed[14],
            seed[15],
        );
        let w2 = word(
            seed[16],
            seed[17],
            seed[18],
            seed[19],
            seed[20],
            seed[21],
            seed[22],
            seed[23],
        );
        let w3 = word(
            seed[24],
            seed[25],
            seed[26],
            seed[27],
            seed[28],
            seed[29],
            seed[30],
            seed[31],
        );
        let folded = w0 ^ w1.wrapping_mul(3) ^ w2.wrapping_mul(5) ^ w3.wrapping_mul(7);
        Rng { state: if folded == 0 {
            RNG_FALLBACK
        } else {
            folded
        } }
    }

    pub fn next_u64(&mut self) -> (r: u64)
        ensures
            final(self).state == spec_rng_step(old(self).state),
            r == spec_rng_out(spec_rng_step(old(self).state)),
    {
        self.state = self.state.wrapping_mul(RNG_MUL).wrapping_add(RNG_INC);
        self.state ^ (self.state >> 33)
    }

    /// A fixed-point value in `[-1, 1)`.
    pub fn next_symmetric(&mut self) -> (r: i64)
        ensures
            final(self).state == spec_rng_step(old(self).state),
            r == spec_symmetric(spec_rng_out(spec_rng_step(old(self).state))),
            -SCALE <= r < SCALE,
    {
        let v = self.next_u64();
        (v % SYM_MOD) as i64 - SCALE
    }
}

/// Twice the fixed-point unit, the modulus of a symmetric draw.
pub const SYM_MOD: u64 = 131072;

/// Fold an output word into a fixed-point value in `[-1, 1)`.
pub open spec fn spec_symmetric(v: u64) -> i64 {
    ((v % SYM_MOD) - SCALE as u64) as i64
}

} // verus!

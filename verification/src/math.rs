//! A minimal pseudo-random number generator for demo seeding.

use vstd::prelude::*;

verus! {

/// The multiplier of the "ANSI C" linear congruential generator.
pub const LCG_MULTIPLIER: u32 = 1_103_515_245;

/// The increment of the "ANSI C" linear congruential generator.
pub const LCG_INCREMENT: u32 = 12345;

/// What one step of the generator produces from the current seed.
pub open spec fn lcg_step(seed: u32) -> u32 {
    vstd::wrapping::u32_specs::wrapping_add(
        vstd::wrapping::u32_specs::wrapping_mul(seed, LCG_MULTIPLIER),
        LCG_INCREMENT,
    )
}

/// A linear congruential generator over `u32`, using the well-known (and
/// statistically weak) "ANSI C" constants. Good enough to speckle a demo.
pub struct LinearCongruentialGenerator(pub u32);

impl LinearCongruentialGenerator {
    /// A generator seeded with zero.
    pub fn new() -> (r: Self)
        ensures
            r.0 == 0,
    {
        LinearCongruentialGenerator(0)
    }

    /// A generator with the given seed.
    pub fn from_seed(seed: u32) -> (r: Self)
        ensures
            r.0 == seed,
    {
        LinearCongruentialGenerator(seed)
    }

    /// Replaces the current seed with the next value in the sequence and
    /// returns it.
    pub fn next_u32(&mut self) -> (r: u32)
        ensures
            r == lcg_step(old(self).0),
            final(self).0 == r,
    {
        self.0 = self.0.wrapping_mul(LCG_MULTIPLIER).wrapping_add(LCG_INCREMENT);
        self.0
    }

    /// The parity of the next value in the sequence.
    pub fn next_bool(&mut self) -> (r: bool)
        ensures
            final(self).0 == lcg_step(old(self).0),
            r == (lcg_step(old(self).0) % 2 != 0),
    {
        self.next_u32() % 2 != 0
    }

    /// The next value in the sequence, reinterpreted as a signed integer.
    pub fn next_i32(&mut self) -> (r: i32)
        ensures
            final(self).0 == lcg_step(old(self).0),
            r == lcg_step(old(self).0) as i32,
    {
        self.next_u32() as i32
    }
}

impl Default for LinearCongruentialGenerator {
    /// The same generator as [`LinearCongruentialGenerator::new`].
    fn default() -> (r: Self)
        ensures
            r.0 == 0,
    {
        LinearCongruentialGenerator::new()
    }
}

} // verus!

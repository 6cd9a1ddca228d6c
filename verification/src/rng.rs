//! A small seeded generator for the scene's randomness.
//!
//! The generator is a 32-bit xorshift. It is deterministic: the seed fixes
//! every value that follows, so a scene can be reproduced from its seed. It
//! is not meant for anything that needs unpredictability.

use vstd::prelude::*;

verus! {

/// State used in place of a zero seed, which the generator could never
/// leave.
pub const ZERO_SEED: u32 = 0x9E37_79B9;

/// One step of the generator.
pub open spec fn step(state: u32) -> u32 {
    let a = state ^ (state << 13);
    let b = a ^ (a >> 17);
    b ^ (b << 5)
}

/// The state after `n` steps.
pub open spec fn state_after(state: u32, n: nat) -> u32
    decreases n,
{
    if n == 0 {
        state
    } else {
        step(state_after(state, (n - 1) as nat))
    }
}

/// The generator: its state is the value that it gave last.
pub struct Rng {
    pub state: u32,
}

/// The state that a seed starts the generator in: the seed itself, and
/// `ZERO_SEED` for zero.
pub open spec fn seeded(seed: u32) -> u32 {
    if seed == 0 {
        ZERO_SEED
    } else {
        seed
    }
}

impl Rng {
    /// A generator that starts from `seed`.
    pub fn new(seed: u32) -> (r: Rng)
        ensures
            r.state == seeded(seed),
    {
        Rng { state: if seed == 0 { ZERO_SEED } else { seed } }
    }

    /// The next value of the sequence.
    pub fn next_u32(&mut self) -> (r: u32)
        ensures
            final(self).state == step(old(self).state),
            r == final(self).state,
    {
        let a: u32 = self.state ^ (self.state << 13);
        let b: u32 = a ^ (a >> 17);
        self.state = b ^ (b << 5);
        self.state
    }

    /// The next value of the sequence, reduced to the range below `bound`.
    pub fn below(&mut self, bound: u32) -> (r: u32)
        requires
            bound > 0,
        ensures
            final(self).state == step(old(self).state),
            r == final(self).state % bound,
            r < bound,
    {
        self.next_u32() % bound
    }
}

} // verus!

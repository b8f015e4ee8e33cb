//! The linear congruential generator behind level layouts.

use vstd::prelude::*;

verus! {

/// Multiplier of the generator.
pub const LCG_MULTIPLIER: u64 = 1103515245;

/// Increment of the generator.
pub const LCG_INCREMENT: u64 = 12345;

/// Modulus of the generator, two to the power 31.
pub const LCG_MODULUS: u64 = 0x8000_0000;

/// The state that follows `state`: `(state * 1103515245 + 12345) mod 2^31`.
pub open spec fn lcg_next(state: int) -> int {
    (state * LCG_MULTIPLIER + LCG_INCREMENT) % (LCG_MODULUS as int)
}

/// One step from a state of up to 80 bits, without intermediate wrap-around.
pub fn lcg_step_wide(state: u128) -> (next: u64)
    requires
        state < 0x1_0000_0000_0000_0000_0000u128,
    ensures
        next == lcg_next(state as int),
        next < LCG_MODULUS,
{
    assert(state * 1103515245 + 12345 < 0x1_0000_0000_0000_0000_0000_0000_0000u128) by (nonlinear_arith)
        requires
            state < 0x1_0000_0000_0000_0000_0000u128,
    ;
    let wide: u128 = (state * 1103515245u128 + 12345u128) % 0x8000_0000u128;
    wide as u64
}

/// One step of the generator.
pub fn lcg_step(state: u64) -> (next: u64)
    ensures
        next == lcg_next(state as int),
        next < LCG_MODULUS,
{
    lcg_step_wide(state as u128)
}

/// A generator with its current state.
#[derive(Clone, Copy, Debug)]
pub struct Lcg {
    pub state: u64,
}

impl Lcg {
    /// A generator that starts from `seed`.
    pub fn new(seed: u64) -> (rng: Lcg)
        ensures
            rng.state == seed,
    {
        Lcg { state: seed }
    }

    /// Advances the generator and returns the new state.
    pub fn next(&mut self) -> (value: u64)
        ensures
            value == lcg_next(old(self).state as int),
            final(self).state == value,
            value < LCG_MODULUS,
    {
        let value: u64 = lcg_step(self.state);
        self.state = value;
        value
    }
}

} // verus!

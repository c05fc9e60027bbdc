//! Explicit, deterministic pseudorandom source for the tick context.
//!
//! The world's ambient randomness is handed to the tree as a seeded linear
//! congruential generator, so a tick's decisions are a function of agent,
//! snapshot and seed alone and tests can replay them exactly.

use vstd::prelude::*;

verus! {

/// Multiplier of the linear congruential step.
pub const LCG_MUL: u64 = 6364136223846793005;

/// Increment of the linear congruential step.
pub const LCG_INC: u64 = 1442695040888963407;

/// One step of the generator.
pub open spec fn spec_lcg_next(s: u64) -> u64 {
    (((s as int) * (LCG_MUL as int) + (LCG_INC as int)) % 0x1_0000_0000_0000_0000) as u64
}

/// The value a draw in thousandths yields from a given state.
pub open spec fn spec_draw_permille(s: u64) -> int {
    (spec_lcg_next(s) >> 16) as int % 1000
}

/// The index a bounded draw yields from a given state.
pub open spec fn spec_draw_index(s: u64, n: int) -> int
    recommends
        n > 0,
{
    (spec_lcg_next(s) >> 16) as int % n
}

/// Tick-scoped pseudorandom source.
pub struct TickRng {
    pub state: u64,
}

impl TickRng {
    /// A generator starting from the given seed.
    pub fn new(seed: u64) -> (r: TickRng)
        ensures
            r.state == seed,
    {
        TickRng { state: seed }
    }

    /// Advance the state and return it.
    fn step(&mut self) -> (r: u64)
        ensures
            final(self).state == spec_lcg_next(old(self).state),
            r == final(self).state,
    {
        let s: u64 = self.state;
        assert((s as int) * (LCG_MUL as int) <= 0xffff_ffff_ffff_ffff * (LCG_MUL as int))
            by (nonlinear_arith)
            requires
                s <= 0xffff_ffff_ffff_ffff,
        ;
        let wide: u128 = (s as u128) * (LCG_MUL as u128) + (LCG_INC as u128);
        let next: u64 = (wide % 0x1_0000_0000_0000_0000u128) as u64;
        self.state = next;
        next
    }

    /// True with the given probability in thousandths.
    pub fn chance_permille(&mut self, p: u32) -> (r: bool)
        requires
            p <= 1000,
        ensures
            final(self).state == spec_lcg_next(old(self).state),
            r == (spec_draw_permille(old(self).state) < p),
    {
        let v: u64 = self.step();
        ((v >> 16) % 1000) < (p as u64)
    }

    /// A uniform index below the given positive bound.
    pub fn pick_index(&mut self, n: usize) -> (r: usize)
        requires
            n > 0,
        ensures
            final(self).state == spec_lcg_next(old(self).state),
            r == spec_draw_index(old(self).state, n as int),
            r < n,
    {
        let v: u64 = self.step();
        (((v >> 16) % (n as u64))) as usize
    }
}

} // verus!

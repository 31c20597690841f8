use vstd::prelude::*;

verus! {

/// Multiplier of the linear congruential generator.
pub const LCG_MULTIPLIER: u64 = 6364136223846793005;

/// The state that follows `state`: `state * LCG_MULTIPLIER + 1` modulo 2^64.
pub open spec fn lcg_step(state: u64) -> u64 {
    ((state as nat * LCG_MULTIPLIER as nat + 1) % 0x1_0000_0000_0000_0000nat) as u64
}

/// A small, reproducible pseudo-random generator for simulated workloads.
pub struct SimpleRng {
    pub state: u64,
}

impl SimpleRng {
    pub fn new(seed: u64) -> (rng: Self)
        ensures
            rng.state == seed,
    {
        SimpleRng { state: seed }
    }

    /// Advances the generator by one step and returns the new state.
    pub fn next_u64(&mut self) -> (value: u64)
        ensures
            final(self).state == lcg_step(old(self).state),
            value == final(self).state,
    {
        let product: u64 = self.state.wrapping_mul(LCG_MULTIPLIER);
        proof {
            let p: nat = self.state as nat * LCG_MULTIPLIER as nat;
            let m: nat = 0x1_0000_0000_0000_0000nat;
            assert(product == p % m);
            vstd::arithmetic::div_mod::lemma_add_mod_noop(p as int, 1, m as int);
            assert((1int % (m as int)) == 1);
            assert(((p % m) as int + 1) % (m as int) == (p as int + 1) % (m as int));
        }
        self.state = product.wrapping_add(1);
        self.state
    }

    /// Draws a number below `upper` from the next state.
    pub fn gen_range(&mut self, upper: u32) -> (value: u32)
        requires
            upper > 0,
        ensures
            final(self).state == lcg_step(old(self).state),
            value as int == lcg_step(old(self).state) as int % upper as int,
            value < upper,
    {
        let next: u64 = self.next_u64();
        (next % (upper as u64)) as u32
    }
}

} // verus!

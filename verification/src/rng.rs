use vstd::prelude::*;

verus! {

/// Multiplier of the linear congruential generator.
pub const LCG_MULTIPLIER: u64 = 6_364_136_223_846_793_005;

/// Increment of the linear congruential generator.
pub const LCG_INCREMENT: u64 = 1_442_695_040_888_963_407;

/// One step of the generator: `state * A + C` modulo 2^64.
pub open spec fn lcg_step(state: u64) -> u64 {
    vstd::wrapping::u64_specs::wrapping_add(
        vstd::wrapping::u64_specs::wrapping_mul(state, LCG_MULTIPLIER),
        LCG_INCREMENT,
    )
}

/// The state after `n` steps from `state`.
pub open spec fn lcg_iterate(state: u64, n: nat) -> u64
    decreases n,
{
    if n == 0 {
        state
    } else {
        lcg_step(lcg_iterate(state, (n - 1) as nat))
    }
}

/// The value `range_inclusive(min, max)` draws from a generator whose next
/// state is `next`: the high 32 bits of `next`, reduced modulo the width.
pub open spec fn range_value(next: u64, min: i32, max: i32) -> int {
    min + ((next >> 32u64) as int) % (max - min + 1)
}

/// A small deterministic pseudo-random generator (64-bit LCG).
#[derive(Clone, Debug)]
pub struct DeterministicRng {
    state: u64,
}

impl DeterministicRng {
    /// The current internal state.
    pub closed spec fn spec_state(&self) -> u64 {
        self.state
    }

    /// Seeds the generator; a zero seed is replaced by 1.
    pub fn new(seed: u64) -> (rng: Self)
        ensures
            rng.spec_state() == (if seed == 0 { 1 } else { seed }),
    {
        Self { state: if seed < 1 { 1 } else { seed } }
    }

    /// Draws an integer in `min..=max` and advances the state by one step.
    pub fn range_inclusive(&mut self, min: i32, max: i32) -> (value: i32)
        requires
            min <= max,
            max - min + 1 <= i32::MAX,
        ensures
            final(self).spec_state() == lcg_step(old(self).spec_state()),
            value == range_value(final(self).spec_state(), min, max),
            min <= value <= max,
    {
        let next = self.next_u64();
        let width: u64 = (max - min + 1) as u64;
        let high: u64 = next >> 32u64;
        let offset: u64 = high % width;
        assert(offset < width);
        assert(min + offset <= max);
        min + (offset as i32)
    }

    /// Advances the state by one step and returns the new state.
    pub fn next_u64(&mut self) -> (value: u64)
        ensures
            final(self).spec_state() == lcg_step(old(self).spec_state()),
            value == final(self).spec_state(),
    {
        self.state = self.state.wrapping_mul(LCG_MULTIPLIER).wrapping_add(LCG_INCREMENT);
        self.state
    }

    /// The current internal state.
    pub fn state(&self) -> (state: u64)
        ensures
            state == self.spec_state(),
    {
        self.state
    }
}

/// Two generators seeded alike produce the same state after the same
/// number of steps: the sequence depends on the seed alone.
pub proof fn lemma_seed_determines_sequence(a: DeterministicRng, b: DeterministicRng, n: nat)
    requires
        a.spec_state() == b.spec_state(),
    ensures
        lcg_iterate(a.spec_state(), n) == lcg_iterate(b.spec_state(), n),
{
}

} // verus!

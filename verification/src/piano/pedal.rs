//! Noise source of the pedal-mechanism sounds (damper whoosh, restrike buzz).
use vstd::prelude::*;

verus! {

/// One xorshift32 step with shifts 13, 17, 5.
pub open spec fn xorshift32_step(x: u32) -> u32 {
    let a = x ^ (x << 13u32);
    let b = a ^ (a >> 17u32);
    b ^ (b << 5u32)
}

/// Lightweight, deterministic XorShift PRNG for zero-allocation real-time noise.
#[derive(Debug, Clone)]
pub struct FastNoise {
    state: u32,
}

impl FastNoise {
    pub closed spec fn spec_state(self) -> u32 {
        self.state
    }

    /// A generator seeded with `seed`; a zero seed is replaced by 1, since the
    /// all-zero state would never leave zero.
    pub fn new(seed: u32) -> (r: Self)
        ensures
            r.spec_state() == (if seed > 1 { seed } else { 1 }),
            r.spec_state() != 0,
    {
        FastNoise { state: if seed > 1 { seed } else { 1 } }
    }

    /// Advances the generator one step and returns the new state.
    pub fn next_u32(&mut self) -> (r: u32)
        ensures
            r == xorshift32_step(old(self).spec_state()),
            final(self).spec_state() == r,
    {
        let mut x = self.state;
        x = x ^ (x << 13u32);
        x = x ^ (x >> 17u32);
        x = x ^ (x << 5u32);
        self.state = x;
        x
    }
}

/// The noise never gets stuck: from a nonzero state the next state is
/// nonzero, so a generator made by `FastNoise::new` stays nonzero forever.
pub proof fn lemma_fast_noise_stays_nonzero(x: u32)
    requires
        x != 0,
    ensures
        xorshift32_step(x) != 0,
{
    let a = x ^ (x << 13u32);
    let b = a ^ (a >> 17u32);
    assert(x != 0 ==> (x ^ (x << 13u32)) != 0) by (bit_vector);
    assert(a != 0 ==> (a ^ (a >> 17u32)) != 0) by (bit_vector);
    assert(b != 0 ==> (b ^ (b << 5u32)) != 0) by (bit_vector);
}

} // verus!

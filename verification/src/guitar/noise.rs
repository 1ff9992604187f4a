//! Deterministic xorshift64 generator used for humanized timing and
//! finger-friction grain.
use vstd::prelude::*;

verus! {

/// One xorshift64 step with shifts 13, 7, 17.
pub open spec fn xorshift64_step(x: u64) -> u64 {
    let a = x ^ (x << 13u64);
    let b = a ^ (a >> 7u64);
    b ^ (b << 17u64)
}

/// Fast, deterministic, zero-allocation pseudo-random generator.
#[derive(Debug, Clone, Copy)]
pub struct Xorshift64 {
    state: u64,
}

impl Xorshift64 {
    pub closed spec fn spec_state(self) -> u64 {
        self.state
    }

    pub fn new(seed: u64) -> (r: Self)
        ensures
            r.spec_state() == seed,
    {
        Xorshift64 { state: seed }
    }

    pub fn state(&self) -> (r: u64)
        ensures
            r == self.spec_state(),
    {
        self.state
    }

    /// Advances the generator one step and returns the new state.
    pub fn next_u64(&mut self) -> (r: u64)
        ensures
            r == xorshift64_step(old(self).spec_state()),
            final(self).spec_state() == r,
    {
        let mut x = self.state;
        x = x ^ (x << 13u64);
        x = x ^ (x >> 7u64);
        x = x ^ (x << 17u64);
        self.state = x;
        x
    }
}

/// Each xorshift64 step is invertible, so a generator seeded with a nonzero
/// state never falls into the all-zero state (which would repeat forever).
pub proof fn lemma_xorshift64_nonzero(x: u64)
    requires
        x != 0,
    ensures
        xorshift64_step(x) != 0,
{
    let a = x ^ (x << 13u64);
    let b = a ^ (a >> 7u64);
    assert(x != 0 ==> (x ^ (x << 13u64)) != 0) by (bit_vector);
    assert(a != 0 ==> (a ^ (a >> 7u64)) != 0) by (bit_vector);
    assert(b != 0 ==> (b ^ (b << 17u64)) != 0) by (bit_vector);
}

} // verus!

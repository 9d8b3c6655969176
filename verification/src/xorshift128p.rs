//! An implementation of the xorshift-plus random number generator.
//!
//! A deterministic, non-concurrent utility consumed for test-pattern
//! generation.  It has 128 bits of state and produces 64-bit outputs;
//! every output is completely determined by the seed and the number of
//! previous draws, which is exactly what the step function below states.

use vstd::prelude::*;

verus! {

/// The first default state word: hex digits of pi, nothing special.
pub const XORSHIFT_SEED_0: u64 = 0x243F_6A88_85A3_08D3;

/// The second default state word: more hex digits of pi.
pub const XORSHIFT_SEED_1: u64 = 0x082E_FA98_EC4E_6C89;

/// One step of the generator: the new state pair and the output drawn.
pub open spec fn spec_xorshift_step(s0: u64, s1: u64) -> (u64, u64, u64) {
    let a = s0 ^ (s0 << 23);
    let b = a ^ (a >> 18);
    let c = b ^ (s1 ^ (s1 >> 5));
    (s1, c, c.wrapping_add(s1))
}

/// The xorshift-plus generator: 128 bits of state, 64-bit outputs.
pub struct Xorshift128Plus {
    state: [u64; 2],
}

impl Xorshift128Plus {
    /// The first state word.
    pub closed spec fn spec_s0(self) -> u64 {
        self.state[0]
    }

    /// The second state word.
    pub closed spec fn spec_s1(self) -> u64 {
        self.state[1]
    }

    /// Initializes the random-number generator with a given state.
    ///
    /// This seed should ideally put entropy in all 128 bits of state, or
    /// the output may not be particularly great.
    pub fn with_seed(seed: [u64; 2]) -> (r: Self)
        ensures
            r.spec_s0() == seed[0],
            r.spec_s1() == seed[1],
    {
        Xorshift128Plus { state: seed }
    }

    /// Takes the given seed and XORs it with a decent existing seed,
    /// effectively turning a terrible seed into a less terrible seed.
    pub fn with_seed_xor(seed: [u64; 2]) -> (r: Self)
        ensures
            r.spec_s0() == XORSHIFT_SEED_0 ^ seed[0],
            r.spec_s1() == XORSHIFT_SEED_1 ^ seed[1],
    {
        let base = Xorshift128Plus::default();
        Xorshift128Plus { state: [base.state[0] ^ seed[0], base.state[1] ^ seed[1]] }
    }

    /// Produces the next 64-bit output from the generator.
    ///
    /// This is relatively fast, and completely deterministic based on
    /// the seed and the previous number of calls.
    pub fn next(&mut self) -> (r: u64)
        ensures
            (final(self).spec_s0(), final(self).spec_s1(), r) == spec_xorshift_step(
                old(self).spec_s0(),
                old(self).spec_s1(),
            ),
    {
        let mut t = self.state[0];
        let s = self.state[1];
        t = t ^ (t << 23);
        t = t ^ (t >> 18);
        t = t ^ (s ^ (s >> 5));
        self.state = [s, t];
        t.wrapping_add(s)
    }
}

impl Default for Xorshift128Plus {
    /// The generator seeded with the default state words.
    fn default() -> (r: Self)
        ensures
            r.spec_s0() == XORSHIFT_SEED_0,
            r.spec_s1() == XORSHIFT_SEED_1,
    {
        Xorshift128Plus { state: [XORSHIFT_SEED_0, XORSHIFT_SEED_1] }
    }
}

} // verus!

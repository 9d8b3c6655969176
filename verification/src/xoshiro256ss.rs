//! An implementation of the xoshiro-star-star random number generator.
//!
//! A deterministic, non-concurrent utility consumed for test-pattern
//! generation.  It has 256 bits of state and produces 64-bit outputs;
//! every output is completely determined by the seed and the number of
//! previous draws, which is exactly what the step function below states.

use vstd::prelude::*;

verus! {

/// The first default state word: hex digits of pi, nothing special.
pub const XOSHIRO_SEED_0: u64 = 0x243F_6A88_85A3_08D3;

/// The second default state word.
pub const XOSHIRO_SEED_1: u64 = 0x1319_8A2E_0370_7344;

/// The third default state word.
pub const XOSHIRO_SEED_2: u64 = 0xA409_3822_299F_31D0;

/// The fourth default state word.
pub const XOSHIRO_SEED_3: u64 = 0x082E_FA98_EC4E_6C89;

/// A 64-bit rotate left by `k` bits.
pub open spec fn spec_rotate_left(x: u64, k: u64) -> u64 {
    (x << k) | (x >> (64 - k))
}

/// One step of the generator: the new state and the output drawn.
pub open spec fn spec_xoshiro_step(s: (u64, u64, u64, u64)) -> (u64, u64, u64, u64, u64) {
    let result = spec_rotate_left(s.1, 7).wrapping_mul(9);
    let t = s.1 << 17;
    let n2a = s.2 ^ s.0;
    let n3a = s.3 ^ s.1;
    let n1 = s.1 ^ n2a;
    let n0 = s.0 ^ n3a;
    let n2 = n2a ^ t;
    let n3 = spec_rotate_left(n3a, 45);
    (n0, n1, n2, n3, result)
}

/// The xoshiro-star-star generator: 256 bits of state, 64-bit outputs.
pub struct Xoshiro256 {
    state: [u64; 4],
}

impl Xoshiro256 {
    /// The state words as a tuple.
    pub closed spec fn spec_state(self) -> (u64, u64, u64, u64) {
        (self.state[0], self.state[1], self.state[2], self.state[3])
    }

    /// Initializes the random-number generator with a given state.
    ///
    /// This seed should ideally put entropy in all 256 bits of state, or
    /// the output may not be particularly great.
    pub fn with_seed(seed: [u64; 4]) -> (r: Self)
        ensures
            r.spec_state() == (seed[0], seed[1], seed[2], seed[3]),
    {
        Xoshiro256 { state: seed }
    }

    /// Takes the given seed and XORs it with a decent existing seed,
    /// effectively turning a terrible seed into a less terrible seed.
    pub fn with_seed_xor(seed: [u64; 4]) -> (r: Self)
        ensures
            r.spec_state() == (
                XOSHIRO_SEED_0 ^ seed[0],
                XOSHIRO_SEED_1 ^ seed[1],
                XOSHIRO_SEED_2 ^ seed[2],
                XOSHIRO_SEED_3 ^ seed[3],
            ),
    {
        let base = Xoshiro256::default();
        Xoshiro256 {
            state: [
                base.state[0] ^ seed[0],
                base.state[1] ^ seed[1],
                base.state[2] ^ seed[2],
                base.state[3] ^ seed[3],
            ],
        }
    }

    /// A 64-bit rotate left by `k` bits; `k` must be a proper rotation
    /// amount, as the two shifts it is built from stay in range only
    /// then.
    pub fn rotate_left(x: u64, k: u64) -> (r: u64)
        requires
            0 < k < 64,
        ensures
            r == spec_rotate_left(x, k),
    {
        (x << k) | (x >> (64 - k))
    }

    /// Produces the next 64-bit output from the generator.
    ///
    /// This is relatively fast, and completely deterministic based on
    /// the seed and the previous number of calls.
    pub fn next(&mut self) -> (r: u64)
        ensures
            ({
                let step = spec_xoshiro_step(old(self).spec_state());
                final(self).spec_state() == (step.0, step.1, step.2, step.3) && r == step.4
            }),
    {
        let result = Xoshiro256::rotate_left(self.state[1], 7).wrapping_mul(9);
        let t = self.state[1] << 17;

        let n2a = self.state[2] ^ self.state[0];
        let n3a = self.state[3] ^ self.state[1];
        let n1 = self.state[1] ^ n2a;
        let n0 = self.state[0] ^ n3a;

        let n2 = n2a ^ t;
        let n3 = Xoshiro256::rotate_left(n3a, 45);

        self.state = [n0, n1, n2, n3];
        result
    }
}

impl Default for Xoshiro256 {
    /// The generator seeded with the default state words.
    fn default() -> (r: Self)
        ensures
            r.spec_state() == (XOSHIRO_SEED_0, XOSHIRO_SEED_1, XOSHIRO_SEED_2, XOSHIRO_SEED_3),
    {
        Xoshiro256 { state: [XOSHIRO_SEED_0, XOSHIRO_SEED_1, XOSHIRO_SEED_2, XOSHIRO_SEED_3] }
    }
}

} // verus!

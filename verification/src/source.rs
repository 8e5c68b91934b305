//! The pseudo-random source: a xoshiro256** generator behind trusted
//! wrappers. Its state is opaque here; nothing is assumed of the words it
//! yields, so everything proved downstream holds for every possible stream.

use vstd::prelude::*;

use crate::trial::SCALE;
use crate::trial::coord_of_raw;

verus! {

#[verifier::external_type_specification]
#[verifier::external_body]
pub struct ExXoshiro256StarStar(rand_xoshiro::Xoshiro256StarStar);

/// Relies on `rand::random::<u64>`: one word from the thread-local,
/// OS-entropy-seeded generator. Any value may come back, and two calls may
/// differ.
#[verifier::external_body]
fn entropy_word() -> u64 {
    rand::random::<u64>()
}

/// Relies on `Xoshiro256StarStar::seed_from_u64` (`SeedableRng`): expands
/// one word into a full generator state. The state is opaque here.
#[verifier::external_body]
fn xoshiro_from_seed(seed: u64) -> rand_xoshiro::Xoshiro256StarStar {
    <rand_xoshiro::Xoshiro256StarStar as rand::SeedableRng>::seed_from_u64(seed)
}

/// Relies on `Rng::next_u64` for `Xoshiro256StarStar`: advances the state
/// and returns the next word of its stream. Any word may come back.
#[verifier::external_body]
fn xoshiro_next(rng: &mut rand_xoshiro::Xoshiro256StarStar) -> u64 {
    rand::Rng::next_u64(rng)
}

/// One live pseudo-random source. Each execution context (the sequential
/// run, or one parallel worker) owns exactly one, never shared, so streams
/// stay uncorrelated and the hot path needs no locking.
pub struct Source {
    rng: rand_xoshiro::Xoshiro256StarStar,
}

impl Source {
    /// A source seeded from the given word: the reproducible entry point,
    /// for tests that need a fixed stream.
    pub fn from_seed(seed: u64) -> Source {
        Source { rng: xoshiro_from_seed(seed) }
    }

    /// A source seeded from process entropy, so contexts created at nearly
    /// the same time still draw independent streams.
    pub fn from_entropy() -> Source {
        Source { rng: xoshiro_from_seed(entropy_word()) }
    }

    /// The next raw word of the stream.
    pub fn next_raw(&mut self) -> u64 {
        xoshiro_next(&mut self.rng)
    }

    /// The next coordinate: a uniform grid point of `[0, 1)`.
    pub fn next_coord(&mut self) -> (c: u32)
        ensures
            c < SCALE,
    {
        let raw = self.next_raw();
        coord_of_raw(raw)
    }
}

} // verus!

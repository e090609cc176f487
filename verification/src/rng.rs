//! The injected source of randomness: a seeded pseudo-random generator
//! behind a pair of trusted wrappers. The rest of the library never
//! assumes more of a draw than its range, so every property proved of
//! the simulation holds for every sequence of draws.

use vstd::prelude::*;

verus! {

#[verifier::external_type_specification]
#[verifier::external_body]
pub struct ExStdRng(rand::rngs::StdRng);

/// A deterministic random source. Seeding it with the same value
/// yields the same run, which is what makes spawn cadence and height
/// reproducible in tests.
pub struct RandomSource {
    inner: rand::rngs::StdRng,
}

impl RandomSource {
    /// Relies on `rand::SeedableRng::seed_from_u64`: builds the
    /// standard generator deterministically from a 64-bit seed.
    #[verifier::external_body]
    pub fn from_seed(seed: u64) -> RandomSource {
        RandomSource { inner: <rand::rngs::StdRng as rand::SeedableRng>::seed_from_u64(seed) }
    }

    /// Relies on `rand::Rng::gen_range`: a uniform draw from a
    /// non-empty range lies in that range (the call panics on an empty
    /// one, which the precondition rules out). Nothing further is
    /// assumed of the draw.
    #[verifier::external_body]
    pub(crate) fn draw_below(&mut self, n: u64) -> (r: u64)
        requires
            n > 0,
        ensures
            r < n,
    {
        rand::Rng::gen_range(&mut self.inner, 0..n)
    }
}

} // verus!

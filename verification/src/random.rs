use vstd::prelude::*;

use rand::Rng;
use rand::SeedableRng;
use rand_chacha::ChaCha8Rng;

verus! {

#[verifier::external_type_specification]
#[verifier::external_body]
pub struct ExChaCha8Rng(ChaCha8Rng);

/// The game's source of random numbers.
pub struct RngRes {
    pub gener: ChaCha8Rng,
}

/// The generator that `ChaCha8Rng::seed_from_u64` makes from `seed`.
pub uninterp spec fn seeded_rng(seed: u64) -> ChaCha8Rng;

impl RngRes {
    /// A generator seeded with `seed`: the same seed gives the same generator.
    pub fn from_seed(seed: u64) -> (r: RngRes)
        ensures
            r.gener == seeded_rng(seed),
    {
        RngRes { gener: seeded_generator(seed) }
    }
}

/// Calls `rand_chacha::ChaCha8Rng::seed_from_u64` (the default method of
/// `rand_core::SeedableRng`), which expands the seed with PCG32 and builds the generator from
/// the result: the generator depends on the seed alone, and is named `seeded_rng(seed)`.
/// Nothing more is stated of it: its state is opaque here.
#[verifier::external_body]
fn seeded_generator(seed: u64) -> (r: ChaCha8Rng)
    ensures
        r == seeded_rng(seed),
{
    ChaCha8Rng::seed_from_u64(seed)
}

/// Calls `rand::Rng::random_range` on `rng` with the range `0..upper`, which panics on an
/// empty range and otherwise returns a value inside it. Which value comes out depends on the
/// generator's state; only the bound is stated, and nothing of the state afterwards.
#[verifier::external_body]
pub(crate) fn random_below(rng: &mut ChaCha8Rng, upper: u8) -> (r: u8)
    requires
        0 < upper,
    ensures
        r < upper,
{
    rng.random_range(0..upper)
}

} // verus!

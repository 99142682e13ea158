//! A small, fast pseudo-random generator started from a seed.
use vstd::prelude::*;

verus! {

/// `rand::rngs::SmallRng`, carried along as a value nothing is known of.
#[verifier::external_type_specification]
#[verifier::external_body]
pub struct ExSmallRng(rand::rngs::SmallRng);

/// A generator whose stream is fixed by the seed it was created with.
pub struct SeededRng {
    pub rng: rand::rngs::SmallRng,
}

/// `rand::SeedableRng::seed_from_u64` for `SmallRng`. Every seed is
/// accepted; nothing is claimed about the generator that comes back.
#[verifier::external_body]
fn small_rng_from_seed(seed: u64) -> rand::rngs::SmallRng {
    rand::SeedableRng::seed_from_u64(seed)
}

/// `rand::Rng::gen` at type `u64`. Any value may come back.
#[verifier::external_body]
fn small_rng_next_u64(rng: &mut rand::rngs::SmallRng) -> u64 {
    rand::Rng::gen::<u64>(rng)
}

/// `rand::Rng::gen_range` at type `u64`. The call panics unless
/// `low < high`; the value drawn lies in the half-open range.
#[verifier::external_body]
fn small_rng_range_u64(rng: &mut rand::rngs::SmallRng, low: u64, high: u64) -> (value: u64)
    requires
        low < high,
    ensures
        low <= value < high,
{
    rand::Rng::gen_range(rng, low, high)
}

impl SeededRng {
    /// A generator started from `seed`.
    pub fn new(seed: u64) -> Self {
        SeededRng { rng: small_rng_from_seed(seed) }
    }

    /// The next 64 bits of the stream.
    pub fn get_u64(&mut self) -> u64 {
        small_rng_next_u64(&mut self.rng)
    }

    /// A value drawn from `min..max`.
    pub fn get_u64_ranged(&mut self, min: u64, max: u64) -> (value: u64)
        requires
            min < max,
        ensures
            min <= value < max,
    {
        small_rng_range_u64(&mut self.rng, min, max)
    }
}

} // verus!

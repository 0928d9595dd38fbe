//! The source of random numbers that recycled particles are drawn from.

use rand::Rng;
use rand::SeedableRng;
use vstd::prelude::*;

verus! {

/// `rand::rngs::StdRng`, the generator of the `rand` crate. Nothing inside
/// it is looked at.
#[verifier::external_type_specification]
#[verifier::external_body]
pub struct ExStdRng(rand::rngs::StdRng);

/// `rand::rngs::StdRng::seed_from_u64`: a generator whose stream is fixed by
/// `seed`. Nothing is claimed of the generator.
#[verifier::external_body]
pub(crate) fn seeded_generator(seed: u64) -> rand::rngs::StdRng {
    rand::rngs::StdRng::seed_from_u64(seed)
}

/// `rand::Rng::gen_range` on `i64`: some number that is at least `low` and
/// less than `high`. The bounds are in order, as `gen_range` asks.
#[verifier::external_body]
pub(crate) fn uniform(generator: &mut rand::rngs::StdRng, low: i64, high: i64) -> (r: i64)
    requires
        low < high,
    ensures
        low <= r < high,
{
    generator.gen_range(low, high)
}

} // verus!

//! Random draws from a single seeded generator, behind trusted wrappers
//! over the `rand` crate. The orchestrator owns one generator built from a
//! `u64` seed, so every draw of a run is a function of the seed; nothing is
//! assumed about which values come back beyond their ranges, and every
//! caller is verified for all admissible outcomes.

use vstd::prelude::*;

verus! {

#[verifier::external_type_specification]
#[verifier::external_body]
pub struct ExStdRng(rand::rngs::StdRng);

/// Relies on rand_core's SeedableRng::seed_from_u64: a deterministic
/// generator built from the seed alone, so that repeated runs under the
/// same seed draw the same values in the same order.
#[verifier::external_body]
pub fn rng_from_seed(seed: u64) -> rand::rngs::StdRng {
    <rand::rngs::StdRng as rand::SeedableRng>::seed_from_u64(seed)
}

/// Relies on rand::seq::index::sample: exactly `amount` distinct indices
/// drawn from `0..length`, in random order. The call panics when
/// `amount > length`, so that case is excluded here.
#[verifier::external_body]
pub fn sample_distinct_indices(rng: &mut rand::rngs::StdRng, length: usize, amount: usize) -> (r:
    Vec<usize>)
    requires
        amount <= length,
    ensures
        r@.len() == amount,
        forall|i: int| 0 <= i < r@.len() ==> #[trigger] r@[i] < length,
        forall|i: int, j: int| 0 <= i < j < r@.len() ==> r@[i] != r@[j],
{
    rand::seq::index::sample(rng, length, amount).into_vec()
}

/// Relies on rand's RngExt::random: a draw of a boolean; nothing is
/// promised about its value.
#[verifier::external_body]
pub fn random_bool(rng: &mut rand::rngs::StdRng) -> bool {
    rand::RngExt::random::<bool>(rng)
}

/// Relies on rand's RngExt::random_range: an index below `length`. The call
/// panics on an empty range, so `length` must be positive.
#[verifier::external_body]
pub fn random_index(rng: &mut rand::rngs::StdRng, length: usize) -> (r: usize)
    requires
        length >= 1,
    ensures
        r < length,
{
    rand::RngExt::random_range(rng, 0..length)
}

} // verus!

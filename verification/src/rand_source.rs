//! Trusted boundary to the `rand` crate: the entropy-seeded generator, a
//! uniform pick from a slice, and weighted sampling of run lengths.

use vstd::prelude::*;

use rand::distributions::Distribution;
use rand::seq::SliceRandom;
use rand::SeedableRng;

use crate::weights::seq_sum;

verus! {

#[verifier::external_type_specification]
#[verifier::external_body]
pub struct ExSmallRng(rand::rngs::SmallRng);

/// Holds a `rand::distributions::WeightedIndex<u64>`; opaque because the
/// verifier refuses that type's own declaration.
#[verifier::external_body]
pub struct RunLengthDist {
    dist: rand::distributions::WeightedIndex<u64>,
}

/// The weight table a `RunLengthDist` distribution was built from.
pub uninterp spec fn dist_weights(d: RunLengthDist) -> Seq<u64>;

/// Relies on `SmallRng::from_entropy`: a small generator freshly seeded from
/// system entropy.
#[verifier::external_body]
pub(crate) fn rng_from_entropy() -> rand::rngs::SmallRng {
    rand::rngs::SmallRng::from_entropy()
}

/// Relies on `SliceRandom::choose`: on a non-empty slice it returns `Some` of
/// a uniformly chosen element.
#[verifier::external_body]
pub(crate) fn choose_byte(rng: &mut rand::rngs::SmallRng, options: &[u8]) -> (r: u8)
    requires
        options@.len() > 0,
    ensures
        options@.contains(r),
{
    *options.choose(rng).unwrap()
}

/// Relies on `WeightedIndex::new`: construction succeeds when the table is
/// non-empty and its total weight is positive (and, being summed in `u64`,
/// fits `u64`), and the distribution then draws indices in proportion to the
/// given weights.
#[verifier::external_body]
pub(crate) fn weighted_index_new(weights: &Vec<u64>) -> (d: RunLengthDist)
    requires
        weights@.len() > 0,
        0 < seq_sum(weights@) <= u64::MAX,
    ensures
        dist_weights(d) == weights@,
{
    RunLengthDist { dist: rand::distributions::WeightedIndex::new(weights).unwrap() }
}

/// Relies on `Distribution::sample` for `WeightedIndex`: the drawn index is
/// within the table and never one whose weight is zero.
#[verifier::external_body]
pub(crate) fn sample_run_length(
    rng: &mut rand::rngs::SmallRng,
    d: &RunLengthDist,
) -> (r: usize)
    ensures
        r < dist_weights(*d).len(),
        dist_weights(*d)[r as int] > 0,
{
    d.dist.sample(rng)
}

} // verus!

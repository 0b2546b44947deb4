//! Trusted access to the process-wide randomness source.

use vstd::prelude::*;

use crate::tables::sum_weights;

verus! {

/// Relies on rand's `Rng::gen_range` over the thread rng: a draw from the
/// inclusive range between the bounds returns a uniformly distributed value
/// of that range. The call panics only on an empty range, which the
/// precondition rules out.
#[verifier::external_body]
pub(crate) fn draw_in_range(lo: u64, hi: u64) -> (r: u64)
    requires
        lo <= hi,
    ensures
        lo <= r <= hi,
{
    rand::Rng::gen_range(&mut rand::thread_rng(), lo..=hi)
}

/// Relies on rand's `WeightedIndex` over unsigned integer weights: when the
/// weights are non-empty with a positive total that fits the weight type,
/// building the index succeeds, and a draw returns each index with
/// probability proportional to its weight; in particular the index is in
/// bounds and an index of weight zero is never returned.
#[verifier::external_body]
pub(crate) fn sample_weighted(weights: &Vec<u64>) -> (idx: usize)
    requires
        weights@.len() > 0,
        0 < sum_weights(weights@) <= u64::MAX,
    ensures
        idx < weights@.len(),
        weights@[idx as int] > 0,
{
    let dist = rand::distributions::WeightedIndex::new(weights.iter()).unwrap();
    rand::distributions::Distribution::sample(&dist, &mut rand::thread_rng())
}

} // verus!

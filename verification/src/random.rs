//! The random draws that the population takes from `nannou`.
//!
//! Both draws come from the generator that the `rand` crate keeps for each
//! thread and seeds from the operating system. Their contracts are believed,
//! not proved. They say what holds of every outcome and nothing of how the
//! outcomes are spread. Where the operating system has no seed to give, the
//! first draw of a thread panics, and no argument can keep it from that.

use vstd::prelude::*;

verus! {

/// Calls `nannou::rand::random_range`, which swaps its bounds when they come
/// in the wrong order and then samples the half-open range between them. An
/// empty range makes the sampler panic, so the bounds must differ; the result
/// lies at or above the lower bound and below the upper one.
#[verifier::external_body]
pub(crate) fn random_range(min: i32, max: i32) -> (r: i32)
    requires
        min != max,
    ensures
        min < max ==> min <= r < max,
        max < min ==> max <= r < min,
{
    nannou::rand::random_range(min, max)
}

/// Calls `nannou::rand::random`, the `random` of the `rand` crate that
/// `nannou` hands on, for a `bool`. Nothing is promised of the outcome.
#[verifier::external_body]
pub(crate) fn random_bool() -> bool {
    nannou::rand::random::<bool>()
}

} // verus!

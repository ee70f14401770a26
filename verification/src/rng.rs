//! Trusted wrappers around the `rand` crate: the thread-local generator
//! and the three kinds of draws the log generator makes.  Nothing is
//! claimed about the distribution of the results, only about their range
//! and about the two degenerate Bernoulli chances.

use vstd::prelude::*;
use rand::Rng;

verus! {

#[verifier::external_type_specification]
#[verifier::external_body]
pub struct ExThreadRng(rand::rngs::ThreadRng);

/// Relies on rand::thread_rng: a handle to the thread-local generator.
#[verifier::external_body]
pub(crate) fn new_thread_rng() -> rand::rngs::ThreadRng {
    rand::thread_rng()
}

/// Relies on rand's Uniform distribution over the inclusive range 0..=59
/// together with Rng::sample: the result lies in that range.
#[verifier::external_body]
pub(crate) fn sample_minute(rng: &mut rand::rngs::ThreadRng) -> (m: u32)
    ensures
        m <= 59,
{
    rng.sample(rand::distributions::Uniform::from(0u32..=59))
}

/// Relies on rand's Uniform distribution over the half-open range 0..len
/// together with Rng::sample: the result is a valid index.  The range
/// must be non-empty, for Uniform::from panics on an empty one.
#[verifier::external_body]
pub(crate) fn sample_index(rng: &mut rand::rngs::ThreadRng, len: usize) -> (i: usize)
    requires
        0 < len,
    ensures
        i < len,
{
    rng.sample(rand::distributions::Uniform::from(0..len))
}

/// Relies on rand's Bernoulli::from_ratio and Rng::sample: from_ratio is
/// Ok whenever num <= denom and denom > 0, a ratio of 0 never samples
/// true, and a ratio of num == denom always does.
#[verifier::external_body]
pub(crate) fn sample_chance(rng: &mut rand::rngs::ThreadRng, num: u32, denom: u32) -> (b: bool)
    requires
        0 < denom,
        num <= denom,
    ensures
        num == 0 ==> !b,
        num == denom ==> b,
{
    rng.sample(rand::distributions::Bernoulli::from_ratio(num, denom).unwrap())
}

} // verus!

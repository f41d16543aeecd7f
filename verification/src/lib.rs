//! Repeated two-player matrix games played by a population of agents.
//!
//! Each round the scheduler partitions the agents into disjoint pairs,
//! collects one action from every agent in a strict turn order, resolves
//! every pair against a reward table, accumulates per-agent scores and
//! reports each encounter back to its participants.

use vstd::prelude::*;
use rand::seq::SliceRandom;

pub mod classic;
pub mod comm;
pub mod pairing;
pub mod prisoner;

verus! {

/// Relies on rand's `SliceRandom::choose`: on a non-empty slice it
/// returns `Some` of one of the slice's elements, so the result here is
/// always one of the two given values.
#[verifier::external_body]
pub(crate) fn choose_of_two<T: Copy>(first: T, second: T) -> (r: T)
    ensures
        r == first || r == second,
{
    let options = [first, second];
    *options.choose(&mut rand::thread_rng()).unwrap()
}

} // verus!

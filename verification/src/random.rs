//! The random draws that starting a game makes, taken from the `rand` crate.

use vstd::prelude::*;
use rand::Rng;
use rand::seq::SliceRandom;
use rand::rngs::ThreadRng;

verus! {

/// The thread-local random number generator of `rand`.
#[verifier::external_type_specification]
#[verifier::external_body]
pub struct ExThreadRng(rand::rngs::ThreadRng);

/// Calls `rand::thread_rng`, which hands out the thread's generator, seeded
/// by the system. Nothing is claimed of it; it panics if the system's random
/// source cannot be read, which no `requires` can rule out.
#[verifier::external_body]
pub(crate) fn thread_rng() -> ThreadRng {
    rand::thread_rng()
}

/// Calls `rand::Rng::gen_ratio`, which returns `true` with probability
/// `numerator / denominator`. Claimed, as its documentation promises: it is
/// `false` when `numerator` is 0 and `true` when `numerator` equals
/// `denominator`. It panics when `denominator` is 0 or `numerator` exceeds
/// it, inputs that `requires` leaves out.
#[verifier::external_body]
pub(crate) fn gen_ratio(rng: &mut ThreadRng, numerator: u32, denominator: u32) -> (b: bool)
    requires
        0 < denominator,
        numerator <= denominator,
    ensures
        numerator == 0 ==> !b,
        numerator == denominator ==> b,
{
    rng.gen_ratio(numerator, denominator)
}

/// Calls `rand::seq::SliceRandom::shuffle` on the vector's elements, which
/// reorders them by swaps (a Fisher-Yates shuffle). Claimed: the vector
/// afterwards holds the same elements, each as often as before. Which order
/// comes out is left unsaid: it rests on chance.
#[verifier::external_body]
pub(crate) fn shuffle<T>(rng: &mut ThreadRng, v: &mut Vec<T>)
    ensures
        final(v)@.to_multiset() == old(v)@.to_multiset(),
{
    v.shuffle(rng)
}

} // verus!

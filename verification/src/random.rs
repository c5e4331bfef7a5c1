//! Chance, which the rand crate provides: shuffles and numbers drawn from a range.

use vstd::prelude::*;
use rand::Rng;
use rand::seq::SliceRandom;

verus! {

/// Shuffles the vector with the thread-local generator (rand's `SliceRandom::shuffle`, a
/// Fisher-Yates shuffle made of swaps). Claimed: the result holds the same elements, each as
/// often as before. Which order comes out is left open, as it rests on chance.
#[verifier::external_body]
pub(crate) fn shuffle<T>(v: &mut Vec<T>)
    ensures
        final(v)@.to_multiset() == old(v)@.to_multiset(),
        final(v)@.len() == old(v)@.len(),
{
    let mut rng = rand::thread_rng();
    v.shuffle(&mut rng);
}

/// A number drawn from `low..high` with the thread-local generator (rand's `Rng::gen_range`,
/// which panics on an empty range, hence the `requires`). Claimed: the number lies in the
/// range; which one it is rests on chance.
#[verifier::external_body]
pub(crate) fn random_in_range(low: u64, high: u64) -> (n: u64)
    requires
        low < high,
    ensures
        low <= n < high,
{
    rand::thread_rng().gen_range(low..high)
}

} // verus!

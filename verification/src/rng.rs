//! Randomness from the `rand` crate, behind trusted wrappers. What these
//! return depends on chance, so their contracts only state what holds of
//! every outcome; the verified code above them is correct for each one.

use rand::RngExt;
use vstd::prelude::*;

verus! {

/// The thread-local random number generator of `rand`.
#[verifier::external_type_specification]
#[verifier::external_body]
pub struct ExThreadRng(rand::rngs::ThreadRng);

/// Calls `rand::rng()`, which hands out the lazily seeded thread-local
/// generator. Nothing is claimed of its state.
#[verifier::external_body]
pub(crate) fn thread_rng() -> (r: rand::rngs::ThreadRng) {
    rand::rng()
}

/// Calls `RngExt::random_range(0..n)` on a `usize` range. The claim: the
/// result lies in `0..n` (the range is non-empty, so the call does not panic).
#[verifier::external_body]
pub(crate) fn random_below(rng: &mut rand::rngs::ThreadRng, n: usize) -> (r: usize)
    requires
        n > 0,
    ensures
        r < n,
{
    rng.random_range(0..n)
}

/// Calls `RngExt::random_range(0..n)` on a `u32` range. The claim: the
/// result lies in `0..n`.
#[verifier::external_body]
pub(crate) fn random_below_u32(rng: &mut rand::rngs::ThreadRng, n: u32) -> (r: u32)
    requires
        n > 0,
    ensures
        r < n,
{
    rng.random_range(0..n)
}

/// Calls `RngExt::random_ratio(num, den)`. The claim, from its
/// documentation: a zero numerator always gives `false` and a numerator
/// equal to the denominator always gives `true`; the call does not panic
/// when `den > 0` and `num <= den`. Otherwise the outcome is left free.
#[verifier::external_body]
pub(crate) fn random_ratio(rng: &mut rand::rngs::ThreadRng, num: u32, den: u32) -> (b: bool)
    requires
        0 < den,
        num <= den,
    ensures
        num == 0 ==> !b,
        num == den ==> b,
{
    rng.random_ratio(num, den)
}

/// Calls `rand::seq::index::sample(rng, length, amount)` and collects the
/// indices. The claim, from its documentation: exactly `amount` distinct
/// indices, each below `length` (the call does not panic for
/// `amount <= length`). Which indices and in which order is left free.
#[verifier::external_body]
pub(crate) fn sample_indices(rng: &mut rand::rngs::ThreadRng, length: usize, amount: usize) -> (v: Vec<usize>)
    requires
        amount <= length,
    ensures
        v@.len() == amount,
        forall|i: int| 0 <= i < v@.len() ==> #[trigger] v@[i] < length,
        forall|i: int, j: int| 0 <= i < j < v@.len() ==> v@[i] != v@[j],
{
    rand::seq::index::sample(rng, length, amount).into_vec()
}

} // verus!

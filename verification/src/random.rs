//! The one door through which chance enters the library.
//!
//! Every function here is trusted: its body calls the `rand` crate and its
//! contract is believed, not proved. A contract states only what holds of
//! every outcome. The rest of the library takes what was drawn as plain
//! values, so all that it does with them is proved for every draw.

use rand::seq::SliceRandom;
use vstd::prelude::*;
use crate::flashcards::Flashcard;

verus! {

/// Calls `rand::random::<u32>()`: some 32-bit value from the thread's
/// generator. Nothing is claimed of which.
#[verifier::external_body]
pub(crate) fn random_u32() -> (draw: u32) {
    rand::random::<u32>()
}

/// Calls `rand::random::<bool>()`: either truth value. Nothing is claimed
/// of which.
#[verifier::external_body]
pub(crate) fn random_bool() -> (draw: bool) {
    rand::random::<bool>()
}

/// Calls `rand::random_range` on `0..len`. The call panics on an empty
/// range, so `len` must be positive; the value it returns lies in the
/// range.
#[verifier::external_body]
pub(crate) fn random_index(len: usize) -> (index: usize)
    requires
        len > 0,
    ensures
        index < len,
{
    rand::random_range(0..len)
}

/// Calls `SliceRandom::shuffle` on the cards with the thread's generator
/// (`rand::rng()`). The shuffle only swaps elements of the slice, so the
/// same cards are there afterwards, each as often as before; nothing is
/// claimed of their order.
#[verifier::external_body]
pub(crate) fn shuffle(cards: &mut Vec<Flashcard>)
    ensures
        final(cards)@.to_multiset() == old(cards)@.to_multiset(),
{
    cards.shuffle(&mut rand::rng());
}

} // verus!

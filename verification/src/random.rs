//! The two draws the games take from a random number generator: a number in
//! a range, and a shuffle. Everything decided from their results is verified.

use rand::rngs::StdRng;
use rand::seq::SliceRandom;
use rand::Rng;
use vstd::prelude::*;

use crate::games::cards::Card;

verus! {

/// The seedable generator the games draw from.
#[verifier::external_type_specification]
#[verifier::external_body]
pub struct ExStdRng(StdRng);

/// Calls `rand::Rng::gen_range(0..bound)`. The crate asserts that the range is
/// not empty (hence `bound > 0`) and samples from it, so the result is below
/// `bound`; which value comes out is left to chance and not stated.
#[verifier::external_body]
pub(crate) fn roll_below(rng: &mut StdRng, bound: u32) -> (roll: u32)
    requires
        bound > 0,
    ensures
        roll < bound,
{
    rng.gen_range(0..bound)
}

/// Calls `rand::seq::SliceRandom::shuffle` on the cards. The crate's
/// implementation is a Fisher-Yates pass of `swap`s, so the same cards come
/// back in some order; which order is left to chance and not stated.
#[verifier::external_body]
pub(crate) fn shuffle_cards(rng: &mut StdRng, cards: &mut Vec<Card>)
    ensures
        final(cards)@.len() == old(cards)@.len(),
        final(cards)@.to_multiset() == old(cards)@.to_multiset(),
{
    cards.shuffle(rng)
}

} // verus!

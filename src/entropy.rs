//! The engine's only sources of chance: dice, deck shuffles and fresh
//! trade ids.
use vstd::prelude::*;
use rand::Rng;
use rand::seq::SliceRandom;
use crate::cards::Card;

verus! {

/// Relies on rand's `Rng::random_range` over the inclusive range `1..=6` on
/// the thread-local generator: the value lies in that range.
#[verifier::external_body]
pub(crate) fn roll_die() -> (r: u8)
    ensures
        1 <= r <= 6,
{
    rand::rng().random_range(1..=6)
}

/// Relies on rand's `SliceRandom::shuffle`, which only swaps elements: the
/// deck afterwards holds the same cards in some order.
#[verifier::external_body]
pub(crate) fn shuffle_cards(deck: &mut Vec<Card>)
    ensures
        final(deck)@.len() == old(deck)@.len(),
        final(deck)@.to_multiset() == old(deck)@.to_multiset(),
{
    deck.shuffle(&mut rand::rng())
}

/// Relies on uuid's `Uuid::new_v4` and its `Display` form: a random id whose
/// value nothing here can predict.
#[verifier::external_body]
pub(crate) fn fresh_trade_id() -> (r: String)
{
    uuid::Uuid::new_v4().to_string()
}

} // verus!

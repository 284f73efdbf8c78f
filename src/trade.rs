//! Trade proposals between two players.
use vstd::prelude::*;

verus! {

/// Where a proposal stands.
#[derive(Clone, Copy, Debug, PartialEq, Eq, Structural)]
pub enum TradeStatus {
    Pending,
    Accepted,
    Rejected,
    Cancelled,
}

/// One side of a trade: cash and a list of property tile ids.
#[derive(Clone, Debug)]
pub struct TradeOffer {
    pub money: i32,
    pub property_ids: Vec<usize>,
}

/// A pending exchange: `offer` goes from the initiator to the target,
/// `request` from the target to the initiator.
#[derive(Clone, Debug)]
pub struct TradeProposal {
    pub id: String,
    pub initiator_id: String,
    pub target_player_id: String,
    pub offer: TradeOffer,
    pub request: TradeOffer,
    pub status: TradeStatus,
}

} // verus!

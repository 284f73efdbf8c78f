//! Room-side records: members handed to the engine when a game starts, and
//! the state of a kick vote.
use vstd::prelude::*;
use std::collections::HashSet;
use crate::session::{vote_outcome, vote_result, VoteOutcome};

verus! {

/// A member of a room, before the game seeds them as a player.
#[derive(Clone, Debug)]
pub struct Player {
    pub id: String,
    pub name: String,
}

/// A vote to remove `target_player_id` from the room, open until `end_time`
/// (seconds since the Unix epoch).
#[derive(Debug)]
pub struct VoteState {
    pub initiator_id: String,
    pub target_player_id: String,
    pub votes_for: HashSet<String>,
    pub votes_against: HashSet<String>,
    pub end_time: u64,
}

impl VoteState {
    /// Outcome of the vote so far among `total_players` room members.
    pub fn outcome(&self, total_players: usize) -> (r: VoteOutcome)
        ensures
            r == vote_result(
                vstd::std_specs::hash::spec_hash_set_len(&self.votes_for) as int,
                vstd::std_specs::hash::spec_hash_set_len(&self.votes_against) as int,
                total_players as int,
            ),
    {
        vote_outcome(self.votes_for.len(), self.votes_against.len(), total_players)
    }
}

} // verus!

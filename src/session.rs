//! Starting a game, kick-vote arithmetic, and routing client commands to
//! the rules.
use vstd::prelude::*;
use vstd::string::*;
use crate::actions::{
    handle_buy_property, handle_pay_rent, buy_error, rent_error, property_bought, rent_amount, rent_owner,
    rent_transferred, PayRentResult,
};
use crate::bankruptcy::{bankruptcy_settled, heir_for};
use crate::economy::{build_error, sell_error, mortgage_error, building_bought, building_sold, mortgage_set};
use crate::trading::{accept_error, close_error, trade_accepted, trade_closed, propose_outcome};
use crate::turn::{roll_applied, turn_passed, bail_error, bail_paid, jail_card_error, jail_card_used};
use crate::board::tile_slot;
use crate::error::GameError;
use crate::messages::{ClientMessage, ServerMessage};
use crate::room::Player;
use crate::state::{GameState, GamePhase, PlayerState, ids_distinct, has_player, player_wf, STARTING_CASH};
use crate::board::PROPERTY_COUNT;

verus! {

/// What becomes of a kick vote after a ballot.
#[derive(Clone, Copy, Debug, PartialEq, Eq, Structural)]
pub enum VoteOutcome {
    /// Enough votes for: the target is removed.
    Kick,
    /// Too many votes against for a majority to remain possible.
    Fail,
    /// Neither yet.
    Pending,
}

/// Votes needed for a strict majority of `voters`.
pub fn votes_required(voters: usize) -> (r: usize)
    ensures
        r == voters / 2 + 1,
        2 * r > voters,
        2 * (r - 1) <= voters,
{
    voters / 2 + 1
}

/// Outcome of a kick vote among `total_players` room members, the target
/// not counted among those whose majority is needed.
pub open spec fn vote_result(votes_for: int, votes_against: int, total_players: int) -> VoteOutcome {
    let voters = if total_players > 0 { total_players - 1 } else { 0 };
    let required = voters / 2 + 1;
    if votes_for >= required {
        VoteOutcome::Kick
    } else if votes_against + required > voters {
        VoteOutcome::Fail
    } else {
        VoteOutcome::Pending
    }
}

/// Outcome of a kick vote among `total_players` room members, the target
/// not counted among those whose majority is needed.
pub fn vote_outcome(votes_for: usize, votes_against: usize, total_players: usize) -> (r: VoteOutcome)
    ensures
        r == vote_result(votes_for as int, votes_against as int, total_players as int),
{
    let voters = if total_players > 0 { total_players - 1 } else { 0 };
    let required = votes_required(voters);
    if votes_for >= required {
        VoteOutcome::Kick
    } else if required > voters || votes_against > voters - required {
        VoteOutcome::Fail
    } else {
        VoteOutcome::Pending
    }
}

/// Why a command of `who` that needs their turn is refused, if it is.
pub open spec fn turn_error(s: GameState, who: Seq<char>) -> Option<GameError> {
    if s.current_turn >= s.players@.len() {
        Some(GameError::CurrentPlayerNotFound)
    } else if !s.is_current(who) {
        Some(GameError::NotYourTurn)
    } else {
        None
    }
}

/// Colour given to the `i`-th seeded player.
pub open spec fn colour_for(i: int) -> Seq<char> {
    if i % 4 == 0 { "red"@ } else if i % 4 == 1 { "blue"@ } else if i % 4 == 2 { "green"@ } else { "yellow"@ }
}

/// Colour given to the `i`-th seeded player.
fn seat_colour(i: usize) -> (r: String)
    ensures
        r@ == colour_for(i as int),
{
    let k = i % 4;
    if k == 0 {
        String::from_str("red")
    } else if k == 1 {
        String::from_str("blue")
    } else if k == 2 {
        String::from_str("green")
    } else {
        String::from_str("yellow")
    }
}

/// Player `p` freshly seeded from member `m` at seat `i`.
pub open spec fn seeded(p: PlayerState, m: Player, i: int) -> bool {
    &&& p.id@ == m.id@
    &&& p.name@ == m.name@
    &&& p.money == STARTING_CASH
    &&& p.position == 0
    &&& p.color@ == colour_for(i)
    &&& !p.is_in_jail
    &&& p.jail_turns == 0
    &&& p.doubles_count == 0
    &&& p.held_cards@.len() == 0
}

impl GameState {
    /// A new game with `members` seated in the given order, everyone with
    /// the starting cash on the start tile, the first member to roll.
    pub fn start_game(members: &Vec<Player>) -> (r: Result<GameState, GameError>)
        ensures
            r is Err <==> exists|a: int, b: int|
                0 <= a < b < members@.len() && #[trigger] members@[a].id@ == #[trigger] members@[b].id@,
            r is Err ==> r == Err::<GameState, GameError>(GameError::DuplicatePlayer),
            r matches Ok(g) ==> {
                &&& g.wf()
                &&& g.players@.len() == members@.len()
                &&& forall|i: int| 0 <= i < members@.len() ==> seeded(#[trigger] g.players@[i], members@[i], i)
                &&& g.phase == GamePhase::Rolling
                &&& g.current_turn == 0
                &&& forall|i: int| 0 <= i < PROPERTY_COUNT ==> (#[trigger] g.properties@[i]).owner_id is None
            },
    {
        let mut a: usize = 0;
        while a < members.len()
            invariant
                a <= members@.len(),
                forall|x: int, y: int| 0 <= x < y < members@.len() && x < a ==> #[trigger] members@[x].id@ != #[trigger] members@[y].id@,
            decreases members@.len() - a,
        {
            let mut b: usize = a + 1;
            while b < members.len()
                invariant
                    a < members@.len(),
                    a + 1 <= b <= members@.len(),
                    forall|x: int, y: int| 0 <= x < y < members@.len() && x < a ==> #[trigger] members@[x].id@ != #[trigger] members@[y].id@,
                    forall|y: int| a < y < b ==> members@[a as int].id@ != #[trigger] members@[y].id@,
                decreases members@.len() - b,
            {
                if members[a].id == members[b].id {
                    return Err(GameError::DuplicatePlayer);
                }
                b += 1;
            }
            a += 1;
        }
        let mut g = GameState::new();
        let mut i: usize = 0;
        while i < members.len()
            invariant
                g.wf(),
                i <= members@.len(),
                g.players@.len() == i,
                g.phase == GamePhase::Waiting,
                g.current_turn == 0,
                forall|x: int, y: int| 0 <= x < y < members@.len() ==> #[trigger] members@[x].id@ != #[trigger] members@[y].id@,
                forall|x: int| 0 <= x < i ==> seeded(#[trigger] g.players@[x], members@[x], x),
                forall|x: int| 0 <= x < PROPERTY_COUNT ==> (#[trigger] g.properties@[x]).owner_id is None,
            decreases members@.len() - i,
        {
            let ghost s = g;
            let p = PlayerState {
                id: members[i].id.clone(),
                name: members[i].name.clone(),
                money: STARTING_CASH,
                position: 0,
                color: seat_colour(i),
                is_in_jail: false,
                jail_turns: 0,
                doubles_count: 0,
                held_cards: Vec::new(),
            };
            g.players.push(p);
            proof {
                let ps = g.players@;
                assert forall|x: int| 0 <= x < ps.len() implies player_wf(#[trigger] ps[x]) by {
                    if x < i {
                        assert(ps[x] == s.players@[x]);
                    }
                }
                assert forall|x: int, y: int| 0 <= x < ps.len() && 0 <= y < ps.len() && x != y implies #[trigger] ps[x].id@
                    != #[trigger] ps[y].id@ by {
                    if x < y {
                        assert(ps[x].id@ == members@[x].id@);
                        assert(ps[y].id@ == members@[y].id@);
                    } else {
                        assert(ps[x].id@ == members@[x].id@);
                        assert(ps[y].id@ == members@[y].id@);
                    }
                }
            }
            i += 1;
        }
        g.phase = GamePhase::Rolling;
        Ok(g)
    }

    /// Carries out a game command of `player_id`. Room-level commands
    /// (creating, joining, voting, starting) are not the game's: they give
    /// `None` and change nothing. A refused command changes nothing either.
    pub fn handle_command(&mut self, player_id: &str, cmd: ClientMessage) -> (r: Option<Result<Vec<ServerMessage>, GameError>>)
        requires
            old(self).wf(),
            old(self).cash_in_range(),
        ensures
            final(self).wf(),
            r is None ==> *final(self) == *old(self),
            r matches Some(Err(_)) ==> *final(self) == *old(self),
            r is None <==> (cmd is CreateRoom || cmd is JoinRoom || cmd is Reconnect || cmd is StartGame
                || cmd is VoteKick || cmd is CastVote),
            cmd is RollDice ==> (match old(self).gate(player_id@, GamePhase::Rolling) {
                Some(e) => r == Some(Err::<Vec<ServerMessage>, GameError>(e)),
                None => r matches Some(Ok(_)) && exists|d1: u8, d2: u8|
                    #![trigger roll_applied(*old(self), *final(self), d1, d2)]
                    1 <= d1 <= 6 && 1 <= d2 <= 6 && roll_applied(*old(self), *final(self), d1, d2),
            }),
            cmd is EndTurn ==> (match old(self).gate(player_id@, GamePhase::EndTurn) {
                Some(e) => r == Some(Err::<Vec<ServerMessage>, GameError>(e)),
                None => r matches Some(Ok(_)) && turn_passed(*old(self), *final(self)),
            }),
            cmd is BuyProperty ==> (match buy_error(*old(self), player_id@) {
                Some(e) => r == Some(Err::<Vec<ServerMessage>, GameError>(e)),
                None => r matches Some(Ok(_)) && property_bought(*old(self), *final(self), player_id@),
            }),
            cmd is PayRent ==> (match rent_error(*old(self), player_id@) {
                Some(e) => r == Some(Err::<Vec<ServerMessage>, GameError>(e)),
                None => r matches Some(Ok(_)) && if old(self).players@[old(self).current_turn as int].money
                    < rent_amount(*old(self)) {
                    bankruptcy_settled(*old(self), *final(self), player_id@, Some(rent_owner(*old(self))))
                } else {
                    rent_transferred(*old(self), *final(self))
                },
            }),
            cmd is PayBail ==> (match turn_error(*old(self), player_id@) {
                Some(e) => r == Some(Err::<Vec<ServerMessage>, GameError>(e)),
                None => match bail_error(*old(self), old(self).current_turn as int) {
                    Some(e) => r == Some(Err::<Vec<ServerMessage>, GameError>(e)),
                    None => r matches Some(Ok(_)) && bail_paid(*old(self), *final(self), old(self).current_turn as int),
                },
            }),
            cmd is UseJailCard ==> (match turn_error(*old(self), player_id@) {
                Some(e) => r == Some(Err::<Vec<ServerMessage>, GameError>(e)),
                None => match jail_card_error(*old(self), old(self).current_turn as int) {
                    Some(e) => r == Some(Err::<Vec<ServerMessage>, GameError>(e)),
                    None => r matches Some(Ok(_)) && jail_card_used(*old(self), *final(self), old(self).current_turn as int),
                },
            }),
            cmd matches ClientMessage::ProposeTrade { target_player_id, offer, request } ==> (r matches Some(x)
                && propose_outcome(*old(self), *final(self), x, player_id@, target_player_id@, offer, request)),
            cmd matches ClientMessage::AcceptTrade { trade_id } ==> (match accept_error(*old(self), trade_id@, player_id@) {
                Some(e) => r == Some(Err::<Vec<ServerMessage>, GameError>(e)),
                None => r matches Some(Ok(_)) && trade_accepted(*old(self), *final(self), trade_id@),
            }),
            cmd matches ClientMessage::RejectTrade { trade_id } ==> (match close_error(*old(self), trade_id@, player_id@, true) {
                Some(e) => r == Some(Err::<Vec<ServerMessage>, GameError>(e)),
                None => r matches Some(Ok(_)) && trade_closed(*old(self), *final(self), trade_id@),
            }),
            cmd matches ClientMessage::CancelTrade { trade_id } ==> (match close_error(*old(self), trade_id@, player_id@, false) {
                Some(e) => r == Some(Err::<Vec<ServerMessage>, GameError>(e)),
                None => r matches Some(Ok(_)) && trade_closed(*old(self), *final(self), trade_id@),
            }),
            cmd matches ClientMessage::BuyBuilding { property_id } ==> (match build_error(*old(self), player_id@, property_id) {
                Some(e) => r == Some(Err::<Vec<ServerMessage>, GameError>(e)),
                None => r matches Some(Ok(_)) && building_bought(*old(self), *final(self), player_id@, property_id),
            }),
            cmd matches ClientMessage::SellBuilding { property_id } ==> (match sell_error(*old(self), player_id@, property_id) {
                Some(e) => r == Some(Err::<Vec<ServerMessage>, GameError>(e)),
                None => r matches Some(Ok(_)) && building_sold(*old(self), *final(self), player_id@, property_id),
            }),
            cmd matches ClientMessage::MortgageProperty { property_id } ==> (match mortgage_error(*old(self), player_id@,
                property_id, false) {
                Some(e) => r == Some(Err::<Vec<ServerMessage>, GameError>(e)),
                None => r matches Some(Ok(_)) && mortgage_set(*old(self), *final(self), player_id@, property_id, false),
            }),
            cmd matches ClientMessage::UnmortgageProperty { property_id } ==> (match mortgage_error(*old(self), player_id@,
                property_id, true) {
                Some(e) => r == Some(Err::<Vec<ServerMessage>, GameError>(e)),
                None => r matches Some(Ok(_)) && mortgage_set(*old(self), *final(self), player_id@, property_id, true),
            }),
            cmd matches ClientMessage::DeclareBankruptcy { creditor_id } ==> (r matches Some(Ok(_))
                && (has_player(old(self).players@, player_id@) ==> bankruptcy_settled(*old(self), *final(self), player_id@,
                    heir_for(*old(self), player_id@, match creditor_id { Some(c) => Some(c@), None => None })))),
    {
        let who = String::from_str(player_id);
        match cmd {
            ClientMessage::RollDice => match self.handle_roll(player_id) {
                Ok((dice, mut events)) => {
                    let mut out: Vec<ServerMessage> = Vec::new();
                    out.push(ServerMessage::DiceRolled { dice, state: self.clone() });
                    let occurred = events.len() > 0;
                    out.append(&mut events);
                    if occurred {
                        out.push(ServerMessage::GameStateUpdate { state: self.clone() });
                    }
                    Some(Ok(out))
                },
                Err(e) => Some(Err(e)),
            },
            ClientMessage::PayBail | ClientMessage::UseJailCard => {
                let bail = match cmd {
                    ClientMessage::PayBail => true,
                    _ => false,
                };
                match self.check_turn(player_id) {
                    Err(e) => Some(Err(e)),
                    Ok(()) => {
                        let i = self.current_turn;
                        let res = if bail { self.pay_bail(i) } else { self.use_jail_card(i) };
                        match res {
                            Ok(mut events) => {
                                events.push(ServerMessage::GameStateUpdate { state: self.clone() });
                                Some(Ok(events))
                            },
                            Err(e) => Some(Err(e)),
                        }
                    },
                }
            },
            ClientMessage::ProposeTrade { target_player_id, offer, request } => Some(
                self.handle_propose_trade(who, target_player_id, offer, request),
            ),
            ClientMessage::AcceptTrade { trade_id } => Some(self.handle_accept_trade(trade_id, who)),
            ClientMessage::RejectTrade { trade_id } => Some(self.handle_reject_trade(trade_id, who)),
            ClientMessage::CancelTrade { trade_id } => Some(self.handle_cancel_trade(trade_id, who)),
            ClientMessage::BuyBuilding { property_id } => Some(self.handle_buy_building(who, property_id)),
            ClientMessage::SellBuilding { property_id } => Some(self.handle_sell_building(who, property_id)),
            ClientMessage::MortgageProperty { property_id } => Some(self.handle_mortgage_property(who, property_id)),
            ClientMessage::UnmortgageProperty { property_id } => Some(self.handle_unmortgage_property(who, property_id)),
            ClientMessage::DeclareBankruptcy { creditor_id } => {
                let events = match &creditor_id {
                    Some(c) => self.handle_bankruptcy(player_id, Some(c.as_str())),
                    None => self.handle_bankruptcy(player_id, None),
                };
                Some(Ok(events))
            },
            ClientMessage::BuyProperty => match handle_buy_property(self, player_id) {
                Ok(()) => {
                    let mut events: Vec<ServerMessage> = Vec::new();
                    events.push(ServerMessage::GameStateUpdate { state: self.clone() });
                    Some(Ok(events))
                },
                Err(e) => Some(Err(e)),
            },
            ClientMessage::PayRent => match handle_pay_rent(self, player_id) {
                Ok(PayRentResult::Success) => {
                    let mut events: Vec<ServerMessage> = Vec::new();
                    events.push(ServerMessage::GameStateUpdate { state: self.clone() });
                    Some(Ok(events))
                },
                Ok(PayRentResult::BankruptcyRequired { creditor_id, rent_owed: _ }) => {
                    proof {
                        let k = tile_slot(self.players@[self.current_turn as int].position)->0;
                        assert(self.properties@[k].owner_id is Some);
                        assert(has_player(self.players@, rent_owner(*self)));
                        assert(has_player(self.players@, player_id@)) by {
                            assert(self.players@[self.current_turn as int].id@ == player_id@);
                        }
                    }
                    Some(Ok(self.handle_bankruptcy(player_id, Some(creditor_id.as_str()))))
                },
                Err(e) => Some(Err(e)),
            },
            ClientMessage::EndTurn => match self.next_turn(player_id) {
                Ok(()) => {
                    let mut events: Vec<ServerMessage> = Vec::new();
                    events.push(ServerMessage::TurnEnded { state: self.clone() });
                    Some(Ok(events))
                },
                Err(e) => Some(Err(e)),
            },
            _ => None,
        }
    }
}

} // verus!

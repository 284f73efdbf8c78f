//! Proposing, accepting, rejecting and cancelling trades.
use vstd::prelude::*;
use crate::board::{tile_slot, lemma_tile_slot_inverse, PROPERTY_COUNT};
use crate::entropy::fresh_trade_id;
use crate::error::GameError;
use crate::messages::ServerMessage;
use crate::state::{
    GameState, PlayerState, PropertyState, owned_by, has_player, player_index, player_wf, properties_wf,
    trade_ids_distinct, trades_valid, lemma_cash_update, is_owned_by, same_id, level_houses, level_hotels,
};
use crate::trade::{TradeOffer, TradeProposal, TradeStatus};
use crate::turn::paid;
use crate::economy::lemma_players_same;

verus! {

/// The first listed property that is unknown (`true`) or not owned by
/// `who` (`false`), if any.
pub open spec fn first_bad(props: Seq<PropertyState>, ids: Seq<usize>, who: Seq<char>) -> Option<(usize, bool)>
    decreases ids.len(),
{
    if ids.len() == 0 {
        None
    } else {
        match tile_slot(ids[0]) {
            None => Some((ids[0], true)),
            Some(k) => if !owned_by(props[k], who) {
                Some((ids[0], false))
            } else {
                first_bad(props, ids.drop_first(), who)
            },
        }
    }
}

/// Whether some proposal has id `id`.
pub open spec fn has_trade(ts: Seq<TradeProposal>, id: Seq<char>) -> bool {
    exists|j: int| 0 <= j < ts.len() && #[trigger] ts[j].id@ == id
}

/// Index of the proposal with id `id`, where there is one.
pub open spec fn trade_index(ts: Seq<TradeProposal>, id: Seq<char>) -> int {
    choose|j: int| 0 <= j < ts.len() && #[trigger] ts[j].id@ == id
}

/// Why a proposal cannot be made, if it can.
pub open spec fn propose_error(
    s: GameState,
    id: Seq<char>,
    initiator: Seq<char>,
    target: Seq<char>,
    offer: TradeOffer,
    request: TradeOffer,
) -> Option<GameError> {
    if !has_player(s.players@, initiator) {
        Some(GameError::InitiatorNotFound)
    } else if !has_player(s.players@, target) {
        Some(GameError::TargetNotFound)
    } else if initiator == target {
        Some(GameError::SelfTrade)
    } else if offer.money < 0 || request.money < 0 {
        Some(GameError::InvalidAmount)
    } else if s.players@[player_index(s.players@, initiator)].money < offer.money {
        Some(GameError::OfferExceedsCash)
    } else {
        match first_bad(s.properties@, offer.property_ids@, initiator) {
            Some((p, true)) => Some(GameError::UnknownProperty(p)),
            Some((p, false)) => Some(GameError::OfferedNotOwned(p)),
            None => match first_bad(s.properties@, request.property_ids@, target) {
                Some((p, true)) => Some(GameError::UnknownProperty(p)),
                Some((p, false)) => Some(GameError::RequestedNotOwned(p)),
                None => if has_trade(s.active_trades@, id) { Some(GameError::DuplicateTrade) } else { None },
            },
        }
    }
}

/// Why `who` cannot accept proposal `id`, if they can.
pub open spec fn accept_error(s: GameState, id: Seq<char>, who: Seq<char>) -> Option<GameError> {
    if !has_trade(s.active_trades@, id) {
        Some(GameError::TradeNotFound)
    } else {
        let t = s.active_trades@[trade_index(s.active_trades@, id)];
        let ps = s.players@;
        if t.target_player_id@ != who {
            Some(GameError::NotTradeTarget)
        } else if !has_player(ps, t.initiator_id@) {
            Some(GameError::InitiatorNotFound)
        } else if !has_player(ps, t.target_player_id@) {
            Some(GameError::TargetNotFound)
        } else if ps[player_index(ps, t.initiator_id@)].money < t.offer.money {
            Some(GameError::InitiatorLacksCash)
        } else if ps[player_index(ps, t.target_player_id@)].money < t.request.money {
            Some(GameError::TargetLacksCash)
        } else {
            match first_bad(s.properties@, t.offer.property_ids@, t.initiator_id@) {
                Some((_, true)) => Some(GameError::PropertyNotFound),
                Some((_, false)) => Some(GameError::InitiatorLostProperty),
                None => match first_bad(s.properties@, t.request.property_ids@, t.target_player_id@) {
                    Some((_, true)) => Some(GameError::PropertyNotFound),
                    Some((_, false)) => Some(GameError::TargetLostProperty),
                    None => None,
                },
            }
        }
    }
}

/// Why `who` cannot reject (`as_target`) or cancel proposal `id`, if they can.
pub open spec fn close_error(s: GameState, id: Seq<char>, who: Seq<char>, as_target: bool) -> Option<GameError> {
    if !has_trade(s.active_trades@, id) {
        Some(GameError::TradeNotFound)
    } else {
        let t = s.active_trades@[trade_index(s.active_trades@, id)];
        if as_target && t.target_player_id@ != who {
            Some(GameError::NotTradeTarget)
        } else if !as_target && t.initiator_id@ != who {
            Some(GameError::NotTradeInitiator)
        } else {
            None
        }
    }
}

/// `t` is `s` with proposal `id` withdrawn.
pub open spec fn trade_closed(s: GameState, t: GameState, id: Seq<char>) -> bool {
    &&& t.active_trades@ == s.active_trades@.remove(trade_index(s.active_trades@, id))
    &&& t == (GameState { active_trades: t.active_trades, ..s })
}

/// `t` is `s` after proposal `id` is carried out and closed.
pub open spec fn trade_accepted(s: GameState, t: GameState, id: Seq<char>) -> bool {
    let k = trade_index(s.active_trades@, id);
    let tr = s.active_trades@[k];
    let ps = s.players@;
    let i = player_index(ps, tr.initiator_id@);
    let j = player_index(ps, tr.target_player_id@);
    &&& i != j
    &&& t.players@ == ps.update(i, paid(ps[i], tr.request.money - tr.offer.money)).update(
        j, paid(ps[j], tr.offer.money - tr.request.money))
    &&& swapped(s.properties@, t.properties@, tr.offer.property_ids@, tr.request.property_ids@, tr.initiator_id@,
        tr.target_player_id@)
    &&& t.active_trades@ == s.active_trades@.remove(k)
    &&& t.total_cash() == s.total_cash()
    &&& t == (GameState { players: t.players, properties: t.properties, active_trades: t.active_trades, ..s })
}

/// `r` and `t` are a possible outcome of proposing a trade from `initiator`
/// to `target` in `s`, for some freshly drawn id.
pub open spec fn propose_outcome(
    s: GameState,
    t: GameState,
    r: Result<Vec<ServerMessage>, GameError>,
    initiator: Seq<char>,
    target: Seq<char>,
    offer: TradeOffer,
    request: TradeOffer,
) -> bool {
    exists|id: Seq<char>| #![trigger propose_error(s, id, initiator, target, offer, request)]
        match propose_error(s, id, initiator, target, offer, request) {
            Some(e) => r == Err::<Vec<ServerMessage>, GameError>(e) && t == s,
            None => {
                &&& r is Ok
                &&& t.active_trades@.len() == s.active_trades@.len() + 1
                &&& t.active_trades@.last().id@ == id
                &&& t.active_trades@.last().initiator_id@ == initiator
                &&& t.active_trades@.last().target_player_id@ == target
                &&& t.active_trades@.last().offer == offer
                &&& t.active_trades@.last().request == request
                &&& t.active_trades@.last().status == TradeStatus::Pending
                &&& t == (GameState { active_trades: t.active_trades, ..s })
            },
        }
}

/// `new` is `old` with every requested property passed to `initiator` and
/// every other offered property to `target`.
pub open spec fn swapped(
    old: Seq<PropertyState>,
    new: Seq<PropertyState>,
    offered: Seq<usize>,
    requested: Seq<usize>,
    initiator: Seq<char>,
    target: Seq<char>,
) -> bool {
    &&& new.len() == old.len()
    &&& forall|x: int|
        0 <= x < old.len() ==> if requested.contains(old[x].id) {
            owned_by(#[trigger] new[x], initiator) && new[x] == (PropertyState { owner_id: new[x].owner_id, ..old[x] })
        } else if offered.contains(old[x].id) {
            owned_by(new[x], target) && new[x] == (PropertyState { owner_id: new[x].owner_id, ..old[x] })
        } else {
            new[x] == old[x]
        }
}

/// Whether `v` holds `x`.
pub fn list_contains(v: &Vec<usize>, x: usize) -> (r: bool)
    ensures
        r == v@.contains(x),
{
    let mut i: usize = 0;
    while i < v.len()
        invariant
            i <= v@.len(),
            forall|j: int| 0 <= j < i ==> #[trigger] v@[j] != x,
        decreases v@.len() - i,
    {
        if v[i] == x {
            return true;
        }
        i += 1;
    }
    false
}

/// Removing a proposal keeps the others' ids distinct and valid.
proof fn lemma_trades_remove(ts: Seq<TradeProposal>, k: int)
    requires
        0 <= k < ts.len(),
        trade_ids_distinct(ts),
        trades_valid(ts),
    ensures
        trade_ids_distinct(ts.remove(k)),
        trades_valid(ts.remove(k)),
{
    let us = ts.remove(k);
    assert forall|a: int, b: int| 0 <= a < us.len() && 0 <= b < us.len() && a != b implies #[trigger] us[a].id@
        != #[trigger] us[b].id@ by {
        let a0 = if a < k { a } else { a + 1 };
        let b0 = if b < k { b } else { b + 1 };
        assert(us[a] == ts[a0] && us[b] == ts[b0]);
    }
    assert forall|x: int| 0 <= x < us.len() implies {
        &&& (#[trigger] us[x]).offer.money >= 0
        &&& us[x].request.money >= 0
        &&& us[x].initiator_id@ != us[x].target_player_id@
    } by {
        let x0 = if x < k { x } else { x + 1 };
        assert(us[x] == ts[x0]);
    }
}

impl GameState {
    /// The first property of `ids` that is unknown or not owned by `who`.
    fn check_bundle(&self, ids: &Vec<usize>, who: &str) -> (r: Option<(usize, bool)>)
        requires
            properties_wf(self.properties@),
        ensures
            r == first_bad(self.properties@, ids@, who@),
    {
        let mut c: usize = 0;
        assert(ids@.subrange(0, ids@.len() as int) =~= ids@);
        while c < ids.len()
            invariant
                properties_wf(self.properties@),
                c <= ids@.len(),
                first_bad(self.properties@, ids@, who@) == first_bad(self.properties@, ids@.subrange(c as int, ids@.len() as int), who@),
            decreases ids@.len() - c,
        {
            let ghost rest = ids@.subrange(c as int, ids@.len() as int);
            assert(rest[0] == ids@[c as int]);
            assert(rest.drop_first() =~= ids@.subrange(c + 1, ids@.len() as int));
            let id = ids[c];
            match self.property_slot(id) {
                None => return Some((id, true)),
                Some(k) => {
                    if !is_owned_by(&self.properties[k], who) {
                        return Some((id, false));
                    }
                },
            }
            c += 1;
        }
        assert(ids@.subrange(c as int, ids@.len() as int).len() == 0);
        None
    }

    /// Index of the proposal with id `id`, if any.
    fn find_trade(&self, id: &String) -> (r: Option<usize>)
        ensures
            r matches Some(i) ==> i < self.active_trades@.len() && self.active_trades@[i as int].id@ == id@,
            r is None ==> !has_trade(self.active_trades@, id@),
    {
        let mut i: usize = 0;
        while i < self.active_trades.len()
            invariant
                i <= self.active_trades@.len(),
                forall|j: int| 0 <= j < i ==> #[trigger] self.active_trades@[j].id@ != id@,
            decreases self.active_trades@.len() - i,
        {
            if self.active_trades[i].id == *id {
                return Some(i);
            }
            i += 1;
        }
        None
    }

    /// Records a pending proposal with id `trade_id` from `initiator_id` to
    /// `target_player_id`, after checking that both take part, that the
    /// initiator holds the offered cash and properties and that the target
    /// holds the requested properties.
    pub fn propose_trade_with_id(
        &mut self,
        trade_id: String,
        initiator_id: String,
        target_player_id: String,
        offer: TradeOffer,
        request: TradeOffer,
    ) -> (r: Result<Vec<ServerMessage>, GameError>)
        requires
            old(self).wf(),
        ensures
            final(self).wf(),
            match propose_error(*old(self), trade_id@, initiator_id@, target_player_id@, offer, request) {
                Some(e) => r == Err::<Vec<ServerMessage>, GameError>(e) && *final(self) == *old(self),
                None => {
                    &&& r is Ok
                    &&& final(self).active_trades@ == old(self).active_trades@.push(TradeProposal {
                        id: trade_id,
                        initiator_id,
                        target_player_id,
                        offer,
                        request,
                        status: TradeStatus::Pending,
                    })
                    &&& *final(self) == (GameState { active_trades: final(self).active_trades, ..*old(self) })
                },
            },
    {
        let i = match self.find_player(initiator_id.as_str()) {
            Some(i) => i,
            None => return Err(GameError::InitiatorNotFound),
        };
        if self.find_player(target_player_id.as_str()).is_none() {
            return Err(GameError::TargetNotFound);
        }
        if initiator_id == target_player_id {
            return Err(GameError::SelfTrade);
        }
        if offer.money < 0 || request.money < 0 {
            return Err(GameError::InvalidAmount);
        }
        proof {
            let jj = player_index(self.players@, initiator_id@);
            assert(self.players@[jj].id@ == initiator_id@);
            assert(jj == i);
        }
        if self.players[i].money < offer.money {
            return Err(GameError::OfferExceedsCash);
        }
        match self.check_bundle(&offer.property_ids, initiator_id.as_str()) {
            Some((p, true)) => return Err(GameError::UnknownProperty(p)),
            Some((p, false)) => return Err(GameError::OfferedNotOwned(p)),
            None => {},
        }
        match self.check_bundle(&request.property_ids, target_player_id.as_str()) {
            Some((p, true)) => return Err(GameError::UnknownProperty(p)),
            Some((p, false)) => return Err(GameError::RequestedNotOwned(p)),
            None => {},
        }
        if self.find_trade(&trade_id).is_some() {
            return Err(GameError::DuplicateTrade);
        }
        let proposal = TradeProposal {
            id: trade_id,
            initiator_id,
            target_player_id,
            offer,
            request,
            status: TradeStatus::Pending,
        };
        let event = ServerMessage::TradeProposed { proposal: proposal.clone() };
        let ghost s = *self;
        self.active_trades.push(proposal);
        proof {
            let ts = self.active_trades@;
            assert forall|a: int, b: int| 0 <= a < ts.len() && 0 <= b < ts.len() && a != b implies #[trigger] ts[a].id@
                != #[trigger] ts[b].id@ by {
                if a < ts.len() - 1 && b < ts.len() - 1 {
                    assert(ts[a] == s.active_trades@[a] && ts[b] == s.active_trades@[b]);
                } else if a < ts.len() - 1 {
                    assert(ts[a] == s.active_trades@[a]);
                } else {
                    assert(ts[b] == s.active_trades@[b]);
                }
            }
            assert forall|x: int| 0 <= x < ts.len() implies {
                &&& (#[trigger] ts[x]).offer.money >= 0
                &&& ts[x].request.money >= 0
                &&& ts[x].initiator_id@ != ts[x].target_player_id@
            } by {
                if x < ts.len() - 1 {
                    assert(ts[x] == s.active_trades@[x]);
                }
            }
        }
        let mut events: Vec<ServerMessage> = Vec::new();
        events.push(event);
        Ok(events)
    }

    /// Index of proposal `trade_id` whose `role` side is `player_id`.
    fn find_trade_for(&self, trade_id: &String, player_id: &String, as_target: bool) -> (r: Result<usize, GameError>)
        requires
            trade_ids_distinct(self.active_trades@),
        ensures
            !has_trade(self.active_trades@, trade_id@) ==> r == Err::<usize, GameError>(GameError::TradeNotFound),
            has_trade(self.active_trades@, trade_id@) ==> {
                let k = trade_index(self.active_trades@, trade_id@);
                let t = self.active_trades@[k];
                if as_target {
                    if t.target_player_id@ != player_id@ {
                        r == Err::<usize, GameError>(GameError::NotTradeTarget)
                    } else {
                        r == Ok::<usize, GameError>(k as usize)
                    }
                } else {
                    if t.initiator_id@ != player_id@ {
                        r == Err::<usize, GameError>(GameError::NotTradeInitiator)
                    } else {
                        r == Ok::<usize, GameError>(k as usize)
                    }
                }
            },
            r matches Ok(k) ==> k < self.active_trades@.len() && k == trade_index(self.active_trades@, trade_id@),
    {
        let k = match self.find_trade(trade_id) {
            Some(k) => k,
            None => return Err(GameError::TradeNotFound),
        };
        proof {
            let kk = trade_index(self.active_trades@, trade_id@);
            assert(self.active_trades@[kk].id@ == trade_id@);
            assert(kk == k);
        }
        if as_target {
            if !(self.active_trades[k].target_player_id == *player_id) {
                return Err(GameError::NotTradeTarget);
            }
        } else {
            if !(self.active_trades[k].initiator_id == *player_id) {
                return Err(GameError::NotTradeInitiator);
            }
        }
        Ok(k)
    }

    /// Rejects proposal `trade_id`; only its target may.
    pub fn handle_reject_trade(&mut self, trade_id: String, player_id: String) -> (r: Result<Vec<ServerMessage>, GameError>)
        requires
            old(self).wf(),
        ensures
            final(self).wf(),
            match close_error(*old(self), trade_id@, player_id@, true) {
                Some(e) => r == Err::<Vec<ServerMessage>, GameError>(e),
                None => r matches Ok(events) && events@ == seq![ServerMessage::TradeRejected { trade_id }]
                    && trade_closed(*old(self), *final(self), trade_id@),
            },
            r is Err ==> *final(self) == *old(self),
    {
        let k = match self.find_trade_for(&trade_id, &player_id, true) {
            Ok(k) => k,
            Err(e) => return Err(e),
        };
        proof { lemma_trades_remove(self.active_trades@, k as int); }
        self.active_trades.remove(k);
        let mut events: Vec<ServerMessage> = Vec::new();
        events.push(ServerMessage::TradeRejected { trade_id });
        assert(events@ =~= seq![ServerMessage::TradeRejected { trade_id }]);
        Ok(events)
    }

    /// Cancels proposal `trade_id`; only its initiator may.
    pub fn handle_cancel_trade(&mut self, trade_id: String, player_id: String) -> (r: Result<Vec<ServerMessage>, GameError>)
        requires
            old(self).wf(),
        ensures
            final(self).wf(),
            match close_error(*old(self), trade_id@, player_id@, false) {
                Some(e) => r == Err::<Vec<ServerMessage>, GameError>(e),
                None => r matches Ok(events) && events@ == seq![ServerMessage::TradeCancelled { trade_id }]
                    && trade_closed(*old(self), *final(self), trade_id@),
            },
            r is Err ==> *final(self) == *old(self),
    {
        let k = match self.find_trade_for(&trade_id, &player_id, false) {
            Ok(k) => k,
            Err(e) => return Err(e),
        };
        proof { lemma_trades_remove(self.active_trades@, k as int); }
        self.active_trades.remove(k);
        let mut events: Vec<ServerMessage> = Vec::new();
        events.push(ServerMessage::TradeCancelled { trade_id });
        assert(events@ =~= seq![ServerMessage::TradeCancelled { trade_id }]);
        Ok(events)
    }

    /// Accepts proposal `trade_id` as its target: after checking again that
    /// both sides still hold what they give, swaps the cash and properties
    /// and closes the proposal.
    pub fn handle_accept_trade(&mut self, trade_id: String, player_id: String) -> (r: Result<Vec<ServerMessage>, GameError>)
        requires
            old(self).wf(),
            old(self).cash_in_range(),
        ensures
            final(self).wf(),
            match accept_error(*old(self), trade_id@, player_id@) {
                Some(e) => r == Err::<Vec<ServerMessage>, GameError>(e) && *final(self) == *old(self),
                None => r is Ok && trade_accepted(*old(self), *final(self), trade_id@),
            },
            r matches Ok(events) ==> events@.len() == 2 && events@[0] == (ServerMessage::TradeAccepted { trade_id }),
    {
        let k = match self.find_trade_for(&trade_id, &player_id, true) {
            Ok(k) => k,
            Err(e) => return Err(e),
        };
        let ghost s = *self;
        let ghost t = s.active_trades@[k as int];
        let i = match self.find_player(self.active_trades[k].initiator_id.as_str()) {
            Some(i) => i,
            None => return Err(GameError::InitiatorNotFound),
        };
        let j = match self.find_player(self.active_trades[k].target_player_id.as_str()) {
            Some(j) => j,
            None => return Err(GameError::TargetNotFound),
        };
        proof {
            let ii = player_index(s.players@, t.initiator_id@);
            let jj = player_index(s.players@, t.target_player_id@);
            assert(s.players@[ii].id@ == t.initiator_id@);
            assert(s.players@[jj].id@ == t.target_player_id@);
            assert(ii == i && jj == j);
            assert(i != j);
        }
        let offer_money = self.active_trades[k].offer.money;
        let request_money = self.active_trades[k].request.money;
        if self.players[i].money < offer_money {
            return Err(GameError::InitiatorLacksCash);
        }
        if self.players[j].money < request_money {
            return Err(GameError::TargetLacksCash);
        }
        match self.check_bundle(&self.active_trades[k].offer.property_ids, self.active_trades[k].initiator_id.as_str()) {
            Some((_, true)) => return Err(GameError::PropertyNotFound),
            Some((_, false)) => return Err(GameError::InitiatorLostProperty),
            None => {},
        }
        match self.check_bundle(&self.active_trades[k].request.property_ids, self.active_trades[k].target_player_id.as_str()) {
            Some((_, true)) => return Err(GameError::PropertyNotFound),
            Some((_, false)) => return Err(GameError::TargetLostProperty),
            None => {},
        }
        proof { lemma_trades_remove(self.active_trades@, k as int); }
        let proposal = self.active_trades.remove(k);
        self.players[i].money = self.players[i].money - offer_money + request_money;
        self.players[j].money = self.players[j].money - request_money + offer_money;
        let ghost m = *self;
        let mut x: usize = 0;
        while x < self.properties.len()
            invariant
                m.properties@.len() == PROPERTY_COUNT,
                self.properties@.len() == PROPERTY_COUNT,
                x <= PROPERTY_COUNT,
                *self == (GameState { properties: self.properties, ..m }),
                forall|y: int| x <= y < PROPERTY_COUNT ==> #[trigger] self.properties@[y] == m.properties@[y],
                forall|y: int|
                    0 <= y < x ==> if proposal.request.property_ids@.contains(m.properties@[y].id) {
                        owned_by(#[trigger] self.properties@[y], t.initiator_id@) && self.properties@[y] == (PropertyState {
                            owner_id: self.properties@[y].owner_id, ..m.properties@[y] })
                    } else if proposal.offer.property_ids@.contains(m.properties@[y].id) {
                        owned_by(self.properties@[y], t.target_player_id@) && self.properties@[y] == (PropertyState {
                            owner_id: self.properties@[y].owner_id, ..m.properties@[y] })
                    } else {
                        self.properties@[y] == m.properties@[y]
                    },
                proposal == t,
            decreases PROPERTY_COUNT - x,
        {
            let pid = self.properties[x].id;
            if list_contains(&proposal.request.property_ids, pid) {
                self.properties[x].owner_id = Some(proposal.initiator_id.clone());
            } else if list_contains(&proposal.offer.property_ids, pid) {
                self.properties[x].owner_id = Some(proposal.target_player_id.clone());
            }
            x += 1;
        }
        proof {
            let ps = s.players@;
            let mid = ps.update(i as int, paid(ps[i as int], request_money - offer_money));
            assert(self.players@ =~= mid.update(j as int, paid(ps[j as int], offer_money - request_money)));
            lemma_cash_update(ps, i as int, paid(ps[i as int], request_money - offer_money));
            lemma_cash_update(mid, j as int, paid(ps[j as int], offer_money - request_money));
            lemma_players_same(s, *self);
            let f = |q: PropertyState| level_houses(q.houses);
            let g = |q: PropertyState| level_hotels(q.houses);
            assert(self.properties@.map_values(f) =~= s.properties@.map_values(f));
            assert(self.properties@.map_values(g) =~= s.properties@.map_values(g));
            assert(has_player(self.players@, t.initiator_id@)) by { assert(self.players@[i as int].id@ == t.initiator_id@); }
            assert(has_player(self.players@, t.target_player_id@)) by { assert(self.players@[j as int].id@ == t.target_player_id@); }
            assert forall|y: int| 0 <= y < self.properties@.len() implies ((#[trigger] self.properties@[y]).owner_id matches Some(o)
                ==> has_player(self.players@, o@)) by {
                if self.properties@[y] == s.properties@[y] {
                    if let Some(o) = s.properties@[y].owner_id {
                        assert(has_player(s.players@, o@));
                    }
                }
            }
        }
        let mut events: Vec<ServerMessage> = Vec::new();
        events.push(ServerMessage::TradeAccepted { trade_id });
        events.push(ServerMessage::GameStateUpdate { state: self.clone() });
        Ok(events)
    }

    /// Proposes a trade under a freshly drawn id.
    pub fn handle_propose_trade(
        &mut self,
        initiator_id: String,
        target_player_id: String,
        offer: TradeOffer,
        request: TradeOffer,
    ) -> (r: Result<Vec<ServerMessage>, GameError>)
        requires
            old(self).wf(),
        ensures
            final(self).wf(),
            propose_outcome(*old(self), *final(self), r, initiator_id@, target_player_id@, offer, request),
    {
        let trade_id = fresh_trade_id();
        let ghost id = trade_id@;
        let r = self.propose_trade_with_id(trade_id, initiator_id, target_player_id, offer, request);
        assert(propose_error(*old(self), id, initiator_id@, target_player_id@, offer, request) is None ==>
            final(self).active_trades@.last().id@ == id);
        r
    }
}

} // verus!

//! Bankruptcy and removal of players: their properties pass to a creditor
//! or back to the bank, their kept cards go back to their decks, and the
//! turn order closes up.
use vstd::prelude::*;
use crate::cards::{Card, DeckKind, cards_valid, lemma_append_keeps_plain};
use crate::messages::ServerMessage;
use crate::state::{
    GameState, GamePhase, PlayerState, PropertyState, owned_by, has_player, player_wf, properties_wf,
    owners_present, ids_distinct, level_houses, level_hotels, lemma_buildings_update, lemma_buildings_bounds,
    lemma_cash_remove, is_owned_by, same_id, player_index,
};

verus! {

/// View of an optional heir's id.
pub open spec fn heir_view(heir: Option<String>) -> Option<Seq<char>> {
    match heir {
        Some(h) => Some(h@),
        None => None,
    }
}

/// `new` is `old` with every property of `who` handed to `heir`, or, with
/// no heir, returned to the bank unbuilt and unmortgaged.
pub open spec fn settled(old: Seq<PropertyState>, new: Seq<PropertyState>, who: Seq<char>, heir: Option<Seq<char>>) -> bool {
    &&& new.len() == old.len()
    &&& forall|i: int|
        0 <= i < old.len() ==> if owned_by(old[i], who) {
            match heir {
                None => #[trigger] new[i] == (PropertyState { owner_id: None, houses: 0, is_mortgaged: false, ..old[i] }),
                Some(h) => owned_by(new[i], h) && new[i] == (PropertyState { owner_id: new[i].owner_id, ..old[i] }),
            }
        } else {
            new[i] == old[i]
        }
}

/// The cards of `s` that belong to deck `kind`, in order.
pub open spec fn cards_from(s: Seq<Card>, kind: DeckKind) -> Seq<Card>
    decreases s.len(),
{
    if s.len() == 0 {
        Seq::empty()
    } else if s.last().deck == kind {
        cards_from(s.drop_last(), kind).push(s.last())
    } else {
        cards_from(s.drop_last(), kind)
    }
}

/// Turn index after removing the player at `idx`, with `n` players left.
pub open spec fn turn_after_removal(cur: int, idx: int, n: int) -> int {
    if idx < cur {
        cur - 1
    } else if idx == cur {
        if n == 0 { 0 } else { cur % n }
    } else {
        cur
    }
}

/// `t` is `s` after player `idx` leaves the game with no properties left:
/// their kept cards return to their decks, the turn order closes up, and a
/// lone remaining player wins.
pub open spec fn player_dropped(s: GameState, t: GameState, idx: int) -> bool {
    let p = s.players@[idx];
    let n = (s.players@.len() - 1) as int;
    &&& t.players@ == s.players@.remove(idx)
    &&& t.properties == s.properties
    &&& t.chance_deck@ == s.chance_deck@ + cards_from(p.held_cards@, DeckKind::Chance)
    &&& t.community_chest_deck@ == s.community_chest_deck@ + cards_from(p.held_cards@, DeckKind::CommunityChest)
    &&& t.current_turn == turn_after_removal(s.current_turn as int, idx, n)
    &&& t.active_trades == s.active_trades
    &&& t.total_houses == s.total_houses
    &&& t.total_hotels == s.total_hotels
    &&& t.last_dice_roll == s.last_dice_roll
    &&& t.total_cash() == s.total_cash() - p.money
    &&& if n == 1 {
        &&& t.phase == GamePhase::GameOver
        &&& t.winner matches Some(w) && w@ == t.players@[0].id@
        &&& t.rent_paid == s.rent_paid
    } else if idx == s.current_turn && (s.phase == GamePhase::Rolling || s.phase == GamePhase::EndTurn) {
        &&& t.phase == GamePhase::Rolling
        &&& !t.rent_paid
        &&& t.winner == s.winner
    } else {
        &&& t.phase == s.phase
        &&& t.rent_paid == s.rent_paid
        &&& t.winner == s.winner
    }
}

/// `t` is `s` after player `who` leaves the game with their properties
/// handed to `heir` (back to the bank when there is none).
pub open spec fn bankruptcy_settled(s: GameState, t: GameState, who: Seq<char>, heir: Option<Seq<char>>) -> bool {
    exists|mid: GameState|
        #![trigger settled(s.properties@, mid.properties@, who, heir)]
        settled(s.properties@, mid.properties@, who, heir)
        && mid == (GameState { properties: mid.properties, total_houses: mid.total_houses, total_hotels: mid.total_hotels, ..s })
        && player_dropped(mid, t, player_index(s.players@, who))
}

/// Heir of bankrupt `who` when `creditor` is named: the creditor where it
/// is another player of the game, otherwise the bank.
pub open spec fn heir_for(s: GameState, who: Seq<char>, creditor: Option<Seq<char>>) -> Option<Seq<char>> {
    match creditor {
        Some(c) => if has_player(s.players@, c) && c != who { Some(c) } else { None },
        None => None,
    }
}

/// The cards of a valid hand, picked by deck, are valid.
proof fn lemma_cards_from_valid(s: Seq<Card>, kind: DeckKind)
    requires
        cards_valid(s),
    ensures
        cards_valid(cards_from(s, kind)),
    decreases s.len(),
{
    if s.len() > 0 {
        lemma_cards_from_valid(s.drop_last(), kind);
    }
}

impl GameState {
    /// Hands every property of `who` to `heir`, or back to the bank when
    /// there is none, razing its buildings into the bank's inventory.
    fn settle_properties(&mut self, who: &str, heir: &Option<String>)
        requires
            old(self).wf(),
            heir matches Some(h) ==> has_player(old(self).players@, h@),
        ensures
            final(self).wf(),
            settled(old(self).properties@, final(self).properties@, who@, heir_view(*heir)),
            *final(self) == (GameState { properties: final(self).properties, total_houses: final(self).total_houses,
                total_hotels: final(self).total_hotels, ..*old(self) }),
    {
        let ghost s = *self;
        let mut k: usize = 0;
        while k < self.properties.len()
            invariant
                self.wf(),
                k <= self.properties@.len(),
                self.properties@.len() == s.properties@.len(),
                heir matches Some(h) ==> has_player(s.players@, h@),
                *self == (GameState { properties: self.properties, total_houses: self.total_houses,
                    total_hotels: self.total_hotels, ..s }),
                forall|i: int| k <= i < s.properties@.len() ==> #[trigger] self.properties@[i] == s.properties@[i],
                forall|i: int|
                    0 <= i < k ==> if owned_by(s.properties@[i], who@) {
                        match heir_view(*heir) {
                            None => #[trigger] self.properties@[i] == (PropertyState { owner_id: None, houses: 0,
                                is_mortgaged: false, ..s.properties@[i] }),
                            Some(h) => owned_by(self.properties@[i], h) && self.properties@[i] == (PropertyState {
                                owner_id: self.properties@[i].owner_id, ..s.properties@[i] }),
                        }
                    } else {
                        self.properties@[i] == s.properties@[i]
                    },
            decreases s.properties@.len() - k,
        {
            if is_owned_by(&self.properties[k], who) {
                let ghost m = *self;
                match heir {
                    Some(h) => {
                        self.properties[k].owner_id = Some(h.clone());
                        proof {
                            let q = PropertyState { owner_id: self.properties@[k as int].owner_id, ..m.properties@[k as int] };
                            assert(self.properties@ =~= m.properties@.update(k as int, q));
                            lemma_buildings_update(m.properties@, k as int, q);
                        }
                    },
                    None => {
                        let lv = self.properties[k].houses;
                        proof {
                            let q = PropertyState { owner_id: None, houses: 0, is_mortgaged: false, ..m.properties@[k as int] };
                            lemma_buildings_update(m.properties@, k as int, q);
                            lemma_buildings_bounds(m.properties@.update(k as int, q));
                        }
                        if lv == 5 {
                            self.total_hotels = self.total_hotels + 1;
                        } else {
                            self.total_houses = self.total_houses + lv;
                        }
                        self.properties[k].owner_id = None;
                        self.properties[k].houses = 0;
                        self.properties[k].is_mortgaged = false;
                        proof {
                            let q = PropertyState { owner_id: None, houses: 0, is_mortgaged: false, ..m.properties@[k as int] };
                            assert(self.properties@ =~= m.properties@.update(k as int, q));
                        }
                    },
                }
            }
            k += 1;
        }
    }

    /// Removes player `idx`, who owns no property, from the game.
    fn drop_player(&mut self, idx: usize) -> (events: Vec<ServerMessage>)
        requires
            old(self).wf(),
            idx < old(self).players@.len(),
            forall|i: int| 0 <= i < old(self).properties@.len() ==> !owned_by(#[trigger] old(self).properties@[i],
                old(self).players@[idx as int].id@),
        ensures
            final(self).wf(),
            player_dropped(*old(self), *final(self), idx as int),
    {
        let ghost s = *self;
        let p = self.players.remove(idx);
        let mut events: Vec<ServerMessage> = Vec::new();
        proof {
            lemma_cash_remove(s.players@, idx as int);
            lemma_cards_from_valid(p.held_cards@, DeckKind::Chance);
            lemma_cards_from_valid(p.held_cards@, DeckKind::CommunityChest);
        }
        let mut c: usize = 0;
        while c < p.held_cards.len()
            invariant
                c <= p.held_cards@.len(),
                cards_valid(p.held_cards@),
                cards_valid(s.chance_deck@),
                cards_valid(s.community_chest_deck@),
                self.chance_deck@ == s.chance_deck@ + cards_from(p.held_cards@.subrange(0, c as int), DeckKind::Chance),
                self.community_chest_deck@ == s.community_chest_deck@ + cards_from(p.held_cards@.subrange(0, c as int),
                    DeckKind::CommunityChest),
                *self == (GameState { chance_deck: self.chance_deck, community_chest_deck: self.community_chest_deck,
                    players: self.players, ..s }),
                self.players@ == s.players@.remove(idx as int),
            decreases p.held_cards@.len() - c,
        {
            let card = p.held_cards[c];
            proof {
                let pre = p.held_cards@.subrange(0, c + 1);
                assert(pre.drop_last() =~= p.held_cards@.subrange(0, c as int));
                assert(pre.last() == card);
            }
            match card.deck {
                DeckKind::Chance => self.chance_deck.push(card),
                DeckKind::CommunityChest => self.community_chest_deck.push(card),
            }
            proof {
                let pre = p.held_cards@.subrange(0, c + 1);
                assert(self.chance_deck@ =~= s.chance_deck@ + cards_from(pre, DeckKind::Chance));
                assert(self.community_chest_deck@ =~= s.community_chest_deck@ + cards_from(pre, DeckKind::CommunityChest));
            }
            c += 1;
        }
        proof {
            assert(p.held_cards@.subrange(0, c as int) =~= p.held_cards@);
            lemma_append_keeps_plain(s.chance_deck@, cards_from(p.held_cards@, DeckKind::Chance));
            lemma_append_keeps_plain(s.community_chest_deck@, cards_from(p.held_cards@, DeckKind::CommunityChest));
        }
        let n = self.players.len();
        let was_current = idx == self.current_turn;
        if idx < self.current_turn {
            self.current_turn = self.current_turn - 1;
        } else if was_current {
            self.current_turn = if n == 0 { 0 } else { self.current_turn % n };
        }
        if n == 1 {
            self.phase = GamePhase::GameOver;
            self.winner = Some(self.players[0].id.clone());
            events.push(ServerMessage::GameOver {
                winner_id: self.players[0].id.clone(),
                winner_name: self.players[0].name.clone(),
            });
        } else if was_current && (self.phase == GamePhase::Rolling || self.phase == GamePhase::EndTurn) {
            self.phase = GamePhase::Rolling;
            self.rent_paid = false;
        }
        proof {
            let ps = s.players@;
            let t = self.players@;
            assert forall|x: int| 0 <= x < t.len() implies player_wf(#[trigger] t[x]) by {
                if x < idx {
                    assert(t[x] == ps[x]);
                } else {
                    assert(t[x] == ps[x + 1]);
                }
            }
            assert forall|a: int, b: int| 0 <= a < t.len() && 0 <= b < t.len() && a != b implies #[trigger] t[a].id@
                != #[trigger] t[b].id@ by {
                let a0 = if a < idx { a } else { a + 1 };
                let b0 = if b < idx { b } else { b + 1 };
                assert(t[a] == ps[a0] && t[b] == ps[b0]);
            }
            assert forall|i: int| 0 <= i < self.properties@.len() implies ((#[trigger] self.properties@[i]).owner_id matches Some(o)
                ==> has_player(t, o@)) by {
                if let Some(o) = self.properties@[i].owner_id {
                    assert(has_player(ps, o@));
                    let j = choose|j: int| 0 <= j < ps.len() && #[trigger] ps[j].id@ == o@;
                    assert(!owned_by(s.properties@[i], ps[idx as int].id@));
                    assert(j != idx);
                    if j < idx {
                        assert(t[j] == ps[j]);
                    } else {
                        assert(t[j - 1] == ps[j]);
                    }
                }
            }
        }
        events
    }

    /// Removes `player_id` from the game: their properties return to the
    /// bank unbuilt, their kept cards to their decks, and they leave the
    /// turn order. An unknown id changes nothing.
    pub fn remove_player(&mut self, player_id: &str)
        requires
            old(self).wf(),
        ensures
            final(self).wf(),
            !has_player(old(self).players@, player_id@) ==> *final(self) == *old(self),
            has_player(old(self).players@, player_id@) ==> bankruptcy_settled(*old(self), *final(self), player_id@, None),
    {
        let _ = self.eliminate(player_id, None);
    }

    /// Settles the bankruptcy of `player_id`: their properties pass to the
    /// creditor where one is named who is another player of the game,
    /// otherwise to the bank; then they leave the game.
    pub fn handle_bankruptcy(&mut self, player_id: &str, creditor_id: Option<&str>) -> (events: Vec<ServerMessage>)
        requires
            old(self).wf(),
        ensures
            final(self).wf(),
            !has_player(old(self).players@, player_id@) ==> *final(self) == *old(self),
            has_player(old(self).players@, player_id@) ==> bankruptcy_settled(*old(self), *final(self), player_id@,
                heir_for(*old(self), player_id@, match creditor_id { Some(c) => Some(c@), None => None })),
    {
        let heir: Option<String> = match creditor_id {
            Some(c) => {
                if self.find_player(c).is_some() && !same_id(&String::from_str(c), player_id) {
                    Some(String::from_str(c))
                } else {
                    None
                }
            },
            None => None,
        };
        proof {
            if let Some(c) = creditor_id {
                if heir is Some {
                    assert(has_player(self.players@, c@));
                }
            }
        }
        self.eliminate(player_id, heir)
    }

    /// Settles the properties of `player_id` with `heir` and removes them.
    fn eliminate(&mut self, player_id: &str, heir: Option<String>) -> (events: Vec<ServerMessage>)
        requires
            old(self).wf(),
            heir matches Some(h) ==> has_player(old(self).players@, h@) && h@ != player_id@,
        ensures
            final(self).wf(),
            !has_player(old(self).players@, player_id@) ==> *final(self) == *old(self),
            has_player(old(self).players@, player_id@) ==> bankruptcy_settled(*old(self), *final(self), player_id@,
                heir_view(heir)),
    {
        let idx = match self.find_player(player_id) {
            Some(i) => i,
            None => return Vec::new(),
        };
        let ghost s = *self;
        proof {
            let jj = crate::state::player_index(s.players@, player_id@);
            assert(s.players@[jj].id@ == player_id@);
            assert(jj == idx);
        }
        let mut events: Vec<ServerMessage> = Vec::new();
        events.push(ServerMessage::PlayerBankrupt {
            player_id: self.players[idx].id.clone(),
            player_name: self.players[idx].name.clone(),
            creditor_id: heir.clone(),
        });
        self.settle_properties(player_id, &heir);
        let ghost mid = *self;
        proof {
            assert forall|i: int| 0 <= i < mid.properties@.len() implies !owned_by(#[trigger] mid.properties@[i],
                mid.players@[idx as int].id@) by {
                if owned_by(s.properties@[i], player_id@) {
                } else {
                    assert(mid.properties@[i] == s.properties@[i]);
                }
            }
        }
        let mut more = self.drop_player(idx);
        events.append(&mut more);
        events.push(ServerMessage::GameStateUpdate { state: self.clone() });
        events
    }
}

} // verus!

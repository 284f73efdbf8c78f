//! The game-state aggregate, its abstract model and its well-formedness.
use vstd::prelude::*;
use vstd::string::*;
use crate::board::{slot_tile, tile_slot, tile_slot_of, lemma_tile_slot_inverse, property_at, BOARD_SIZE, PROPERTY_COUNT};
use crate::cards::{Card, DeckKind, initialize_decks, shuffled_deck, cards_valid, lemma_shuffled_valid, has_plain_card};
use crate::error::GameError;
use crate::trade::TradeProposal;

verus! {

/// Cash every player starts with.
pub const STARTING_CASH: i32 = 1_500_000;
/// Houses in the bank before anything is built.
pub const BANK_HOUSES: u8 = 32;
/// Hotels in the bank before anything is built.
pub const BANK_HOTELS: u8 = 12;
/// Largest cash balance, in either direction, that a command accepts.
pub const CASH_LIMIT: i32 = 1_000_000_000;
/// Largest number of players that a command accepts.
pub const MAX_PLAYERS: usize = 1000;

/// Which class of command is currently legal.
#[derive(Clone, Copy, Debug, PartialEq, Eq, Structural)]
pub enum GamePhase {
    Waiting,
    Rolling,
    EndTurn,
    GameOver,
}

/// Name of phase `p` as shown to players.
pub open spec fn phase_name(p: GamePhase) -> Seq<char> {
    match p {
        GamePhase::Waiting => "Waiting"@,
        GamePhase::Rolling => "Rolling"@,
        GamePhase::EndTurn => "EndTurn"@,
        GamePhase::GameOver => "GameOver"@,
    }
}

impl GamePhase {
    /// Name of the phase as shown to players.
    pub fn name(&self) -> (r: &'static str)
        ensures
            r@ == phase_name(*self),
    {
        match self {
            GamePhase::Waiting => "Waiting",
            GamePhase::Rolling => "Rolling",
            GamePhase::EndTurn => "EndTurn",
            GamePhase::GameOver => "GameOver",
        }
    }
}

/// A player taking part in the game.
#[derive(Clone, Debug)]
pub struct PlayerState {
    pub id: String,
    pub name: String,
    pub money: i32,
    pub position: usize,
    pub color: String,
    pub is_in_jail: bool,
    pub jail_turns: u8,
    pub doubles_count: u8,
    pub held_cards: Vec<Card>,
}

/// Ownership and development of one ownable tile.
#[derive(Clone, Debug)]
pub struct PropertyState {
    pub id: usize,
    pub name: String,
    pub owner_id: Option<String>,
    pub houses: u8,
    pub is_mortgaged: bool,
}

/// The whole state of one game session.
#[derive(Clone, Debug)]
pub struct GameState {
    pub players: Vec<PlayerState>,
    pub properties: Vec<PropertyState>,
    pub current_turn: usize,
    pub phase: GamePhase,
    pub rent_paid: bool,
    pub chance_deck: Vec<Card>,
    pub community_chest_deck: Vec<Card>,
    pub active_trades: Vec<TradeProposal>,
    pub total_houses: u8,
    pub total_hotels: u8,
    pub last_dice_roll: Option<(u8, u8)>,
    pub winner: Option<String>,
}

/// Sum of a sequence of integers.
pub open spec fn seq_sum(s: Seq<int>) -> int
    decreases s.len(),
{
    if s.len() == 0 {
        0
    } else {
        seq_sum(s.drop_last()) + s.last()
    }
}

/// Replacing one entry changes the sum by the difference.
pub proof fn lemma_seq_sum_update(s: Seq<int>, k: int, v: int)
    requires
        0 <= k < s.len(),
    ensures
        seq_sum(s.update(k, v)) == seq_sum(s) - s[k] + v,
    decreases s.len(),
{
    let t = s.update(k, v);
    if k < s.len() - 1 {
        assert(t.drop_last() =~= s.drop_last().update(k, v));
        lemma_seq_sum_update(s.drop_last(), k, v);
    } else {
        assert(t.drop_last() =~= s.drop_last());
    }
}

/// Removing one entry lowers the sum by that entry.
pub proof fn lemma_seq_sum_remove(s: Seq<int>, k: int)
    requires
        0 <= k < s.len(),
    ensures
        seq_sum(s.remove(k)) == seq_sum(s) - s[k],
    decreases s.len(),
{
    let t = s.remove(k);
    if k < s.len() - 1 {
        assert(t.drop_last() =~= s.drop_last().remove(k));
        lemma_seq_sum_remove(s.drop_last(), k);
    } else {
        assert(t =~= s.drop_last());
    }
}

/// A sequence of zeros sums to zero.
pub proof fn lemma_seq_sum_zero(s: Seq<int>)
    requires
        forall|i: int| 0 <= i < s.len() ==> s[i] == 0,
    ensures
        seq_sum(s) == 0,
    decreases s.len(),
{
    if s.len() > 0 {
        lemma_seq_sum_zero(s.drop_last());
    }
}

/// A sum of terms each within `[0, b]` lies within `[0, b * len]`.
pub proof fn lemma_seq_sum_bounds(s: Seq<int>, b: int)
    requires
        forall|i: int| 0 <= i < s.len() ==> 0 <= #[trigger] s[i] <= b,
    ensures
        0 <= seq_sum(s) <= b * s.len(),
    decreases s.len(),
{
    if s.len() > 0 {
        lemma_seq_sum_bounds(s.drop_last(), b);
        assert(b * s.len() == b * (s.len() - 1) + b) by (nonlinear_arith);
    }
}

/// Cash held by a list of players.
pub open spec fn cash_total(ps: Seq<PlayerState>) -> int {
    seq_sum(ps.map_values(|p: PlayerState| p.money as int))
}

/// Houses standing on a tile of level `h` (a hotel stands alone).
pub open spec fn level_houses(h: u8) -> int {
    if h == 5 { 0 } else { h as int }
}

/// Hotels standing on a tile of level `h`.
pub open spec fn level_hotels(h: u8) -> int {
    if h == 5 { 1 } else { 0 }
}

/// Houses standing on the board.
pub open spec fn houses_built(props: Seq<PropertyState>) -> int {
    seq_sum(props.map_values(|p: PropertyState| level_houses(p.houses)))
}

/// Hotels standing on the board.
pub open spec fn hotels_built(props: Seq<PropertyState>) -> int {
    seq_sum(props.map_values(|p: PropertyState| level_hotels(p.houses)))
}

/// Changing one player changes the cash total by the difference.
pub proof fn lemma_cash_update(ps: Seq<PlayerState>, k: int, p: PlayerState)
    requires
        0 <= k < ps.len(),
    ensures
        cash_total(ps.update(k, p)) == cash_total(ps) - ps[k].money + p.money,
{
    let f = |q: PlayerState| q.money as int;
    assert(ps.update(k, p).map_values(f) =~= ps.map_values(f).update(k, f(p)));
    lemma_seq_sum_update(ps.map_values(f), k, f(p));
}

/// Removing one player lowers the cash total by that player's cash.
pub proof fn lemma_cash_remove(ps: Seq<PlayerState>, k: int)
    requires
        0 <= k < ps.len(),
    ensures
        cash_total(ps.remove(k)) == cash_total(ps) - ps[k].money,
{
    let f = |q: PlayerState| q.money as int;
    assert(ps.remove(k).map_values(f) =~= ps.map_values(f).remove(k));
    lemma_seq_sum_remove(ps.map_values(f), k);
}

/// Changing one property changes the building counts by the difference.
pub proof fn lemma_buildings_update(props: Seq<PropertyState>, k: int, p: PropertyState)
    requires
        0 <= k < props.len(),
    ensures
        houses_built(props.update(k, p)) == houses_built(props) - level_houses(props[k].houses)
            + level_houses(p.houses),
        hotels_built(props.update(k, p)) == hotels_built(props) - level_hotels(props[k].houses)
            + level_hotels(p.houses),
{
    let f = |q: PropertyState| level_houses(q.houses);
    let g = |q: PropertyState| level_hotels(q.houses);
    assert(props.update(k, p).map_values(f) =~= props.map_values(f).update(k, f(p)));
    assert(props.update(k, p).map_values(g) =~= props.map_values(g).update(k, g(p)));
    lemma_seq_sum_update(props.map_values(f), k, f(p));
    lemma_seq_sum_update(props.map_values(g), k, g(p));
}

/// The building counts of a well-formed property list are in range.
pub proof fn lemma_buildings_bounds(props: Seq<PropertyState>)
    requires
        forall|i: int| 0 <= i < props.len() ==> (#[trigger] props[i]).houses <= 5,
    ensures
        0 <= houses_built(props),
        0 <= hotels_built(props),
{
    let f = |q: PropertyState| level_houses(q.houses);
    let g = |q: PropertyState| level_hotels(q.houses);
    assert(forall|i: int| 0 <= i < props.len() ==> 0 <= #[trigger] props.map_values(f)[i] <= 4);
    assert(forall|i: int| 0 <= i < props.len() ==> 0 <= #[trigger] props.map_values(g)[i] <= 1);
    lemma_seq_sum_bounds(props.map_values(f), 4);
    lemma_seq_sum_bounds(props.map_values(g), 1);
}

/// Whether property `p` is owned by the player with id `who`.
pub open spec fn owned_by(p: PropertyState, who: Seq<char>) -> bool {
    p.owner_id matches Some(o) && o@ == who
}

/// Whether some player in `ps` has id `who`.
pub open spec fn has_player(ps: Seq<PlayerState>, who: Seq<char>) -> bool {
    exists|j: int| 0 <= j < ps.len() && #[trigger] ps[j].id@ == who
}

/// Index of the player with id `who`, where there is one.
pub open spec fn player_index(ps: Seq<PlayerState>, who: Seq<char>) -> int {
    choose|j: int| 0 <= j < ps.len() && #[trigger] ps[j].id@ == who
}

/// Every owner named by a property is a player of the game.
pub open spec fn owners_present(props: Seq<PropertyState>, ps: Seq<PlayerState>) -> bool {
    forall|i: int|
        0 <= i < props.len() ==> ((#[trigger] props[i]).owner_id matches Some(o) ==> has_player(ps, o@))
}

/// No two players share an id.
pub open spec fn ids_distinct(ps: Seq<PlayerState>) -> bool {
    forall|a: int, b: int|
        0 <= a < ps.len() && 0 <= b < ps.len() && a != b ==> #[trigger] ps[a].id@ != #[trigger] ps[b].id@
}

/// No two trade proposals share an id.
pub open spec fn trade_ids_distinct(ts: Seq<TradeProposal>) -> bool {
    forall|a: int, b: int|
        0 <= a < ts.len() && 0 <= b < ts.len() && a != b ==> #[trigger] ts[a].id@ != #[trigger] ts[b].id@
}

/// Every proposal moves no negative cash and names two different players.
pub open spec fn trades_valid(ts: Seq<TradeProposal>) -> bool {
    forall|i: int|
        0 <= i < ts.len() ==> {
            &&& (#[trigger] ts[i]).offer.money >= 0
            &&& ts[i].request.money >= 0
            &&& ts[i].initiator_id@ != ts[i].target_player_id@
        }
}

/// The property list holds one entry per ownable tile, in board order, with
/// a building level in range and no buildings on an unowned tile.
pub open spec fn properties_wf(props: Seq<PropertyState>) -> bool {
    &&& props.len() == PROPERTY_COUNT
    &&& forall|i: int|
        0 <= i < PROPERTY_COUNT ==> {
            &&& (#[trigger] props[i]).id == slot_tile(i)
            &&& props[i].houses <= 5
            &&& props[i].owner_id is None ==> props[i].houses == 0
        }
}

/// A player stands on the board, with jail and doubles counters below
/// their limits and only valid cards in hand.
pub open spec fn player_wf(p: PlayerState) -> bool {
    &&& p.position < BOARD_SIZE
    &&& p.jail_turns < 3
    &&& p.doubles_count < 3
    &&& cards_valid(p.held_cards@)
}

impl GameState {
    /// Invariant that holds after every command.
    pub open spec fn wf(&self) -> bool {
        &&& properties_wf(self.properties@)
        &&& owners_present(self.properties@, self.players@)
        &&& ids_distinct(self.players@)
        &&& trade_ids_distinct(self.active_trades@)
        &&& trades_valid(self.active_trades@)
        &&& self.players@.len() == 0 || self.current_turn < self.players@.len()
        &&& forall|i: int| 0 <= i < self.players@.len() ==> player_wf(#[trigger] self.players@[i])
        &&& self.total_houses + houses_built(self.properties@) == BANK_HOUSES
        &&& self.total_hotels + hotels_built(self.properties@) == BANK_HOTELS
        &&& (self.last_dice_roll matches Some((a, b)) ==> 1 <= a <= 6 && 1 <= b <= 6)
        &&& cards_valid(self.chance_deck@)
        &&& cards_valid(self.community_chest_deck@)
        &&& has_plain_card(self.chance_deck@)
        &&& has_plain_card(self.community_chest_deck@)
    }

    /// At most `MAX_PLAYERS` players, each holding at most `limit` either way.
    pub open spec fn cash_within(&self, limit: int) -> bool {
        &&& self.players@.len() <= MAX_PLAYERS
        &&& forall|i: int|
            0 <= i < self.players@.len() ==> -limit <= #[trigger] self.players@[i].money <= limit
    }

    /// Every balance and the number of players are small enough that a
    /// single command cannot overflow a balance.
    pub open spec fn cash_in_range(&self) -> bool {
        self.cash_within(CASH_LIMIT as int)
    }

    /// Cash held by all players.
    pub open spec fn total_cash(&self) -> int {
        cash_total(self.players@)
    }

    /// Why a command of `who` that needs phase `phase` is refused, if it is.
    pub open spec fn gate(&self, who: Seq<char>, phase: GamePhase) -> Option<GameError> {
        if self.current_turn >= self.players@.len() {
            Some(GameError::CurrentPlayerNotFound)
        } else if !self.is_current(who) {
            Some(GameError::NotYourTurn)
        } else if self.phase != phase {
            Some(GameError::InvalidPhase { expected: phase, actual: self.phase })
        } else {
            None
        }
    }

    /// Whether the player at the current turn index has id `who`.
    pub open spec fn is_current(&self, who: Seq<char>) -> bool {
        self.current_turn < self.players@.len() && self.players@[self.current_turn as int].id@ == who
    }
}

/// Every owner named by a property of a well-formed game is one of its
/// players: properties are never left with a dangling owner.
pub proof fn lemma_owner_present(s: GameState, i: int)
    requires
        s.wf(),
        0 <= i < PROPERTY_COUNT,
    ensures
        s.properties@[i].owner_id is None || has_player(s.players@, s.properties@[i].owner_id->0@),
{
}

/// Whether `a` and `b` hold the same text.
pub fn same_id(a: &String, b: &str) -> (r: bool)
    ensures
        r == (a@ == b@),
{
    let t = String::from_str(b);
    *a == t
}

/// Whether property `p` is owned by `who`.
pub fn is_owned_by(p: &PropertyState, who: &str) -> (r: bool)
    ensures
        r == owned_by(*p, who@),
{
    match &p.owner_id {
        Some(o) => same_id(o, who),
        None => false,
    }
}

impl GameState {
    /// A game waiting to start: no players, every property with the bank,
    /// full bank inventory and both decks shuffled.
    pub fn new() -> (r: GameState)
        ensures
            r.wf(),
            r.players@.len() == 0,
            r.current_turn == 0,
            r.phase == GamePhase::Waiting,
            !r.rent_paid,
            forall|i: int|
                0 <= i < PROPERTY_COUNT ==> {
                    &&& (#[trigger] r.properties@[i]).owner_id is None
                    &&& r.properties@[i].houses == 0
                    &&& !r.properties@[i].is_mortgaged
                },
            r.total_houses == BANK_HOUSES,
            r.total_hotels == BANK_HOTELS,
            r.active_trades@.len() == 0,
            r.last_dice_roll is None,
            r.winner is None,
            shuffled_deck(r.chance_deck@, DeckKind::Chance),
            shuffled_deck(r.community_chest_deck@, DeckKind::CommunityChest),
    {
        let mut properties: Vec<PropertyState> = Vec::new();
        let mut slot: usize = 0;
        while slot < PROPERTY_COUNT
            invariant
                slot <= PROPERTY_COUNT,
                properties@.len() == slot,
                forall|i: int|
                    0 <= i < slot ==> {
                        &&& (#[trigger] properties@[i]).id == slot_tile(i)
                        &&& properties@[i].owner_id is None
                        &&& properties@[i].houses == 0
                        &&& !properties@[i].is_mortgaged
                    },
            decreases PROPERTY_COUNT - slot,
        {
            let info = property_at(slot);
            properties.push(PropertyState {
                id: info.id,
                name: String::from_str(info.name),
                owner_id: None,
                houses: 0,
                is_mortgaged: false,
            });
            slot += 1;
        }
        proof {
            let f = |q: PropertyState| level_houses(q.houses);
            let g = |q: PropertyState| level_hotels(q.houses);
            assert(forall|i: int| 0 <= i < properties@.len() ==> properties@.map_values(f)[i] == 0);
            assert(forall|i: int| 0 <= i < properties@.len() ==> properties@.map_values(g)[i] == 0);
            lemma_seq_sum_zero(properties@.map_values(f));
            lemma_seq_sum_zero(properties@.map_values(g));
        }
        let (chance_deck, community_chest_deck) = initialize_decks();
        proof {
            lemma_shuffled_valid(chance_deck@, DeckKind::Chance);
            lemma_shuffled_valid(community_chest_deck@, DeckKind::CommunityChest);
        }
        GameState {
            players: Vec::new(),
            properties,
            current_turn: 0,
            phase: GamePhase::Waiting,
            rent_paid: false,
            chance_deck,
            community_chest_deck,
            active_trades: Vec::new(),
            total_houses: BANK_HOUSES,
            total_hotels: BANK_HOTELS,
            last_dice_roll: None,
            winner: None,
        }
    }

    /// Whether every balance and the number of players are within the
    /// bounds that commands which move cash accept.
    pub fn check_cash_in_range(&self) -> (r: bool)
        ensures
            r == self.cash_in_range(),
    {
        if self.players.len() > MAX_PLAYERS {
            return false;
        }
        let mut i: usize = 0;
        while i < self.players.len()
            invariant
                i <= self.players@.len(),
                forall|j: int| 0 <= j < i ==> -CASH_LIMIT <= #[trigger] self.players@[j].money <= CASH_LIMIT,
            decreases self.players@.len() - i,
        {
            let m = self.players[i].money;
            if m < -CASH_LIMIT || m > CASH_LIMIT {
                return false;
            }
            i += 1;
        }
        true
    }

    /// Index of the player with id `who`, if any.
    pub fn find_player(&self, who: &str) -> (r: Option<usize>)
        ensures
            r matches Some(i) ==> i < self.players@.len() && self.players@[i as int].id@ == who@,
            r is None ==> !has_player(self.players@, who@),
    {
        let mut i: usize = 0;
        while i < self.players.len()
            invariant
                i <= self.players@.len(),
                forall|j: int| 0 <= j < i ==> #[trigger] self.players@[j].id@ != who@,
            decreases self.players@.len() - i,
        {
            if same_id(&self.players[i].id, who) {
                return Some(i);
            }
            i += 1;
        }
        None
    }

    /// Slot in the property list of tile `id`, if the tile can be owned.
    pub fn property_slot(&self, id: usize) -> (r: Option<usize>)
        requires
            properties_wf(self.properties@),
        ensures
            r == (match tile_slot(id) { Some(s) => Some(s as usize), None => None }),
            r matches Some(s) ==> s < PROPERTY_COUNT && self.properties@[s as int].id == id,
    {
        proof { lemma_tile_slot_inverse(id); }
        tile_slot_of(id)
    }

    /// Checks that `player_id` is the player whose turn it is.
    pub fn check_turn(&self, player_id: &str) -> (r: Result<(), GameError>)
        ensures
            r == (if self.current_turn >= self.players@.len() {
                Err::<(), GameError>(GameError::CurrentPlayerNotFound)
            } else if !self.is_current(player_id@) {
                Err::<(), GameError>(GameError::NotYourTurn)
            } else {
                Ok(())
            }),
    {
        if self.current_turn < self.players.len() {
            if same_id(&self.players[self.current_turn].id, player_id) {
                Ok(())
            } else {
                Err(GameError::NotYourTurn)
            }
        } else {
            Err(GameError::CurrentPlayerNotFound)
        }
    }

    /// Checks that it is `player_id`'s turn and that the game is in `phase`.
    pub fn check_gate(&self, player_id: &str, phase: GamePhase) -> (r: Result<(), GameError>)
        ensures
            r == (match self.gate(player_id@, phase) {
                Some(e) => Err::<(), GameError>(e),
                None => Ok(()),
            }),
    {
        match self.check_turn(player_id) {
            Ok(()) => self.check_phase(phase),
            Err(e) => Err(e),
        }
    }

    /// Checks that the game is in phase `expected`.
    pub fn check_phase(&self, expected: GamePhase) -> (r: Result<(), GameError>)
        ensures
            r == (if self.phase == expected {
                Ok(())
            } else {
                Err::<(), GameError>(GameError::InvalidPhase { expected, actual: self.phase })
            }),
    {
        if self.phase == expected {
            Ok(())
        } else {
            Err(GameError::InvalidPhase { expected, actual: self.phase })
        }
    }
}

} // verus!

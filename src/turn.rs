//! Movement, landing effects, event cards, jail and the turn cycle.
use vstd::prelude::*;
use crate::board::{BOARD_SIZE, PROPERTY_COUNT};
use crate::cards::{
    Card, CardEffect, DeckKind, card_valid, cards_valid, deck_after_draw, draw_from, is_keep, has_plain_card,
    lemma_draw_keeps_plain, lemma_append_keeps_plain, CARD_AMOUNT_LIMIT,
};
use crate::entropy::roll_die;
use crate::error::GameError;
use crate::messages::ServerMessage;
use crate::state::{
    GameState, GamePhase, PlayerState, PropertyState, owned_by, has_player, ids_distinct, owners_present, player_wf,
    seq_sum, level_houses, level_hotels, lemma_seq_sum_bounds, same_id, is_owned_by, properties_wf, lemma_cash_update, cash_total,
    MAX_PLAYERS, CASH_LIMIT,
};

verus! {

/// Bonus paid by the bank for passing the start tile.
pub const GO_BONUS: i32 = 200_000;
/// Tile of the jail.
pub const JAIL_POSITION: usize = 10;
/// Tile that sends its visitor to jail.
pub const GO_TO_JAIL_POSITION: usize = 30;
/// Fixed bail for leaving jail.
pub const BAIL: i32 = 50_000;
/// Turns in jail after which bail is charged and the player released.
pub const JAIL_TURN_LIMIT: u8 = 3;
/// Consecutive doubles that send a player to jail.
pub const DOUBLES_LIMIT: u8 = 3;
/// Balance bound under which a single movement step cannot overflow.
pub const STEP_CASH_LIMIT: i32 = 1_500_000_000;

/// Largest change of one balance that a single card can make.
pub const CARD_CASH_SWING: i32 = 200_000_000;

/// Bonus earned by moving forward from `from` to `to`.
pub open spec fn pass_bonus(from: int, to: int) -> int {
    if to < from { GO_BONUS as int } else { 0 }
}

/// First railroad strictly ahead of `pos`, wrapping to the first one.
pub open spec fn nearest_railroad(pos: usize) -> usize {
    if pos < 5 { 5 } else if pos < 15 { 15 } else if pos < 25 { 25 } else if pos < 35 { 35 } else { 5 }
}

/// First utility strictly ahead of `pos`, wrapping to the first one.
pub open spec fn nearest_utility(pos: usize) -> usize {
    if pos < 12 { 12 } else if pos < 28 { 28 } else { 12 }
}

/// Tile reached by moving back `n` tiles from `pos`.
pub open spec fn back_position(pos: usize, n: usize) -> usize {
    if pos >= n { (pos - n) as usize } else { (BOARD_SIZE + pos - n) as usize }
}

/// `p` after moving forward `steps` tiles, with the start bonus if it wrapped.
pub open spec fn moved(p: PlayerState, steps: int) -> PlayerState {
    let to = (p.position + steps) % (BOARD_SIZE as int);
    PlayerState { position: to as usize, money: (p.money + pass_bonus(p.position as int, to)) as i32, ..p }
}

/// `p` after jumping forward to tile `to`, with the start bonus if it wrapped.
pub open spec fn advanced(p: PlayerState, to: usize) -> PlayerState {
    PlayerState { position: to, money: (p.money + pass_bonus(p.position as int, to as int)) as i32, ..p }
}

/// `p` after being sent to jail.
pub open spec fn jailed(p: PlayerState) -> PlayerState {
    PlayerState { position: JAIL_POSITION, is_in_jail: true, jail_turns: 0, doubles_count: 0, ..p }
}

/// `p` with its balance changed by `delta`.
pub open spec fn paid(p: PlayerState, delta: int) -> PlayerState {
    PlayerState { money: (p.money + delta) as i32, ..p }
}

/// Per property, the houses standing on it if `who` owns it.
pub open spec fn house_terms(props: Seq<PropertyState>, who: Seq<char>) -> Seq<int> {
    props.map_values(|q: PropertyState| if owned_by(q, who) { level_houses(q.houses) } else { 0 })
}

/// Per property, the hotels standing on it if `who` owns it.
pub open spec fn hotel_terms(props: Seq<PropertyState>, who: Seq<char>) -> Seq<int> {
    props.map_values(|q: PropertyState| if owned_by(q, who) { level_hotels(q.houses) } else { 0 })
}

/// Houses standing on the properties of `who`.
pub open spec fn houses_owned(props: Seq<PropertyState>, who: Seq<char>) -> int {
    seq_sum(house_terms(props, who))
}

/// Hotels standing on the properties of `who`.
pub open spec fn hotels_owned(props: Seq<PropertyState>, who: Seq<char>) -> int {
    seq_sum(hotel_terms(props, who))
}

/// All parts of the state but the players, the phase and the decks agree.
pub open spec fn same_table(s: GameState, t: GameState) -> bool {
    &&& t.properties == s.properties
    &&& t.current_turn == s.current_turn
    &&& t.rent_paid == s.rent_paid
    &&& t.active_trades == s.active_trades
    &&& t.total_houses == s.total_houses
    &&& t.total_hotels == s.total_hotels
    &&& t.last_dice_roll == s.last_dice_roll
    &&& t.winner == s.winner
}

/// Both decks agree.
pub open spec fn same_decks(s: GameState, t: GameState) -> bool {
    t.chance_deck == s.chance_deck && t.community_chest_deck == s.community_chest_deck
}

/// `ps` with player `idx` replaced by `p`, sent to jail first if `p`
/// stands on the go-to-jail tile.
pub open spec fn land_at(ps: Seq<PlayerState>, idx: int, p: PlayerState) -> Seq<PlayerState> {
    if p.position == GO_TO_JAIL_POSITION {
        ps.update(idx, jailed(p))
    } else {
        ps.update(idx, p)
    }
}

/// Whether drawing `card` sends player `p` to jail.
pub open spec fn card_jails(p: PlayerState, card: Card) -> bool {
    match card.effect {
        CardEffect::GoToJail => true,
        CardEffect::Advance(to) => to == GO_TO_JAIL_POSITION,
        CardEffect::Back(k) => back_position(p.position, k) == GO_TO_JAIL_POSITION,
        _ => false,
    }
}

/// `qs` is `ps` after the effect of `card` on player `idx`, where `props`
/// are the properties.
pub open spec fn card_players(
    ps: Seq<PlayerState>,
    props: Seq<PropertyState>,
    qs: Seq<PlayerState>,
    idx: int,
    card: Card,
) -> bool {
    let p = ps[idx];
    let n = ps.len();
    match card.effect {
        CardEffect::Collect(a) => qs == ps.update(idx, paid(p, a as int)),
        CardEffect::Pay(a) => qs == ps.update(idx, paid(p, -a)),
        CardEffect::Advance(to) => qs == land_at(ps, idx, advanced(p, to)),
        CardEffect::AdvanceNearestRailroad => qs == ps.update(idx, advanced(p, nearest_railroad(p.position))),
        CardEffect::AdvanceNearestUtility => qs == ps.update(idx, advanced(p, nearest_utility(p.position))),
        CardEffect::Back(k) => qs == land_at(ps, idx, PlayerState { position: back_position(p.position, k), ..p }),
        CardEffect::GoToJail => qs == ps.update(idx, jailed(p)),
        CardEffect::CollectFromAll(a) => {
            &&& qs.len() == n
            &&& forall|j: int|
                0 <= j < n ==> #[trigger] qs[j] == paid(ps[j], if j == idx { a * (n - 1) } else { -a })
        },
        CardEffect::Repair { per_house, per_hotel } => qs == ps.update(
            idx,
            paid(p, -(houses_owned(props, p.id@) * per_house + hotels_owned(props, p.id@) * per_hotel)),
        ),
        CardEffect::GetOutOfJail => {
            &&& qs.len() == n
            &&& forall|j: int| 0 <= j < n && j != idx ==> #[trigger] qs[j] == ps[j]
            &&& qs[idx] == PlayerState { held_cards: qs[idx].held_cards, ..p }
            &&& qs[idx].held_cards@ == p.held_cards@.push(card)
        },
    }
}

/// `t` is `s` after the effect of `card` on player `idx`; decks aside.
pub open spec fn card_effect_applied(s: GameState, t: GameState, idx: int, card: Card) -> bool {
    &&& same_table(s, t)
    &&& card_players(s.players@, s.properties@, t.players@, idx, card)
    &&& t.phase == if card_jails(s.players@[idx], card) { GamePhase::EndTurn } else { s.phase }
}

/// Jail-state event reporting player `p`.
pub open spec fn jail_msg(p: PlayerState) -> ServerMessage {
    ServerMessage::JailStateUpdated { player_id: p.id, is_in_jail: p.is_in_jail, jail_turns: p.jail_turns }
}

/// Events of drawing `card` for player `p`, who ends up as `q`: the card,
/// then a jail event where it jails them.
pub open spec fn card_events(p: PlayerState, card: Card, q: PlayerState, is_chance: bool) -> Seq<ServerMessage> {
    seq![ServerMessage::CardDrawn { card, is_chance }] + if card_jails(p, card) {
        seq![jail_msg(q)]
    } else {
        Seq::<ServerMessage>::empty()
    }
}

/// Events of player `idx` of `ps` landing on their tile, where `qs` are the
/// players afterwards: a drawn card and its events, a jail event, or none.
pub open spec fn landing_events(
    ps: Seq<PlayerState>,
    chance: Seq<Card>,
    chest: Seq<Card>,
    qs: Seq<PlayerState>,
    idx: int,
) -> Seq<ServerMessage> {
    let p = ps[idx];
    if is_community_chest_tile(p.position) {
        if chest.len() == 0 { Seq::empty() } else { card_events(p, chest[0], qs[idx], false) }
    } else if is_chance_tile(p.position) {
        if chance.len() == 0 { Seq::empty() } else { card_events(p, chance[0], qs[idx], true) }
    } else if p.position == GO_TO_JAIL_POSITION {
        seq![jail_msg(qs[idx])]
    } else {
        Seq::empty()
    }
}

/// Tax charged on tile `pos` (zero where there is none).
pub open spec fn tax_at(pos: usize) -> int {
    if pos == 4 { 200_000 } else if pos == 38 { 100_000 } else { 0 }
}

/// Whether tile `pos` draws from the community chest deck.
pub open spec fn is_community_chest_tile(pos: usize) -> bool {
    pos == 2 || pos == 17 || pos == 33
}

/// Whether tile `pos` draws from the chance deck.
pub open spec fn is_chance_tile(pos: usize) -> bool {
    pos == 7 || pos == 22 || pos == 36
}

/// Whether landing sends player `idx` of `ps` to jail, given the decks.
pub open spec fn landing_jails(ps: Seq<PlayerState>, chance: Seq<Card>, chest: Seq<Card>, idx: int) -> bool {
    let p = ps[idx];
    if is_community_chest_tile(p.position) {
        chest.len() > 0 && card_jails(p, chest[0])
    } else if is_chance_tile(p.position) {
        chance.len() > 0 && card_jails(p, chance[0])
    } else {
        p.position == GO_TO_JAIL_POSITION
    }
}

/// `t`'s players and decks are those after player `idx` of `ps` lands on
/// their tile, where `props` are the properties and `chance`, `chest` the decks.
pub open spec fn landing_players(
    ps: Seq<PlayerState>,
    props: Seq<PropertyState>,
    chance: Seq<Card>,
    chest: Seq<Card>,
    t: GameState,
    idx: int,
) -> bool {
    let p = ps[idx];
    if is_community_chest_tile(p.position) {
        &&& t.community_chest_deck@ == deck_after_draw(chest)
        &&& t.chance_deck@ == chance
        &&& if chest.len() == 0 { t.players@ == ps } else { card_players(ps, props, t.players@, idx, chest[0]) }
    } else if is_chance_tile(p.position) {
        &&& t.chance_deck@ == deck_after_draw(chance)
        &&& t.community_chest_deck@ == chest
        &&& if chance.len() == 0 { t.players@ == ps } else { card_players(ps, props, t.players@, idx, chance[0]) }
    } else {
        &&& t.chance_deck@ == chance
        &&& t.community_chest_deck@ == chest
        &&& t.players@ == if p.position == GO_TO_JAIL_POSITION {
            ps.update(idx, jailed(p))
        } else {
            ps.update(idx, paid(p, -tax_at(p.position)))
        }
    }
}

/// Whether a roll moves player `p`: a jailed player moves when released, a
/// free player unless the roll is a third double.
pub open spec fn roll_moves(p: PlayerState, double: bool) -> bool {
    if p.is_in_jail {
        double || p.jail_turns + 1 >= JAIL_TURN_LIMIT
    } else {
        !(double && p.doubles_count + 1 >= DOUBLES_LIMIT)
    }
}

/// Player `p` after the jail and doubles bookkeeping of a roll, before any
/// move. At the third failed roll in jail the bail is charged whether or not
/// the player can afford it, so the balance may drop below zero; settling
/// that is left to the players (bankruptcy can be declared at any time).
pub open spec fn roll_prepared(p: PlayerState, double: bool) -> PlayerState {
    if p.is_in_jail {
        if double {
            PlayerState { is_in_jail: false, jail_turns: 0, doubles_count: 0, ..p }
        } else if p.jail_turns + 1 >= JAIL_TURN_LIMIT {
            PlayerState { money: (p.money - BAIL) as i32, is_in_jail: false, jail_turns: 0, ..p }
        } else {
            PlayerState { jail_turns: (p.jail_turns + 1) as u8, ..p }
        }
    } else if double {
        if p.doubles_count + 1 >= DOUBLES_LIMIT {
            jailed(p)
        } else {
            PlayerState { doubles_count: (p.doubles_count + 1) as u8, ..p }
        }
    } else {
        PlayerState { doubles_count: 0, ..p }
    }
}

/// Everything but the players, phase, decks and last roll agrees.
pub open spec fn same_table_but_roll(s: GameState, t: GameState) -> bool {
    &&& t.properties == s.properties
    &&& t.current_turn == s.current_turn
    &&& t.rent_paid == s.rent_paid
    &&& t.active_trades == s.active_trades
    &&& t.total_houses == s.total_houses
    &&& t.total_hotels == s.total_hotels
    &&& t.winner == s.winner
}

/// `t` is `s` after the current player rolls `d1` and `d2`.
pub open spec fn roll_applied(s: GameState, t: GameState, d1: u8, d2: u8) -> bool {
    let i = s.current_turn as int;
    let p = s.players@[i];
    let double = d1 == d2;
    &&& t.last_dice_roll == Some((d1, d2))
    &&& same_table_but_roll(s, t)
    &&& if roll_moves(p, double) {
        let ps = s.players@.update(i, moved(roll_prepared(p, double), d1 + d2));
        &&& landing_players(ps, s.properties@, s.chance_deck@, s.community_chest_deck@, t, i)
        &&& t.phase == if double && !p.is_in_jail && !landing_jails(ps, s.chance_deck@, s.community_chest_deck@, i) {
            GamePhase::Rolling
        } else {
            GamePhase::EndTurn
        }
    } else {
        &&& same_decks(s, t)
        &&& t.players@ == s.players@.update(i, roll_prepared(p, double))
        &&& t.phase == GamePhase::EndTurn
    }
}

/// `t` is `s` after the turn passes to the next player, who starts rolling.
pub open spec fn turn_passed(s: GameState, t: GameState) -> bool {
    let n = s.players@.len();
    let next = (s.current_turn + 1) % (n as int);
    &&& t.current_turn == next
    &&& t.phase == GamePhase::Rolling
    &&& !t.rent_paid
    &&& t.players@ == s.players@.update(next, PlayerState { doubles_count: 0, ..s.players@[next] })
    &&& t.properties == s.properties
    &&& same_decks(s, t)
    &&& t.active_trades == s.active_trades
    &&& t.total_houses == s.total_houses
    &&& t.total_hotels == s.total_hotels
    &&& t.last_dice_roll == s.last_dice_roll
    &&& t.winner == s.winner
}

/// Why player `i` cannot pay bail, if they can.
pub open spec fn bail_error(s: GameState, i: int) -> Option<GameError> {
    if i < 0 || i >= s.players@.len() {
        Some(GameError::PlayerNotFound)
    } else if !s.players@[i].is_in_jail {
        Some(GameError::NotInJail)
    } else if s.players@[i].money < BAIL {
        Some(GameError::NotEnoughMoney)
    } else {
        None
    }
}

/// `t` is `s` after player `i` pays the bail and leaves jail.
pub open spec fn bail_paid(s: GameState, t: GameState, i: int) -> bool {
    &&& t.players@ == s.players@.update(i, released(paid(s.players@[i], -BAIL)))
    &&& t.total_cash() == s.total_cash() - BAIL
    &&& t == (GameState { players: t.players, ..s })
}

/// Why player `i` cannot leave jail with a kept card, if they can.
pub open spec fn jail_card_error(s: GameState, i: int) -> Option<GameError> {
    if i < 0 || i >= s.players@.len() {
        Some(GameError::PlayerNotFound)
    } else if !s.players@[i].is_in_jail {
        Some(GameError::NotInJail)
    } else if forall|x: int| 0 <= x < s.players@[i].held_cards@.len() ==> !is_keep(#[trigger] s.players@[i].held_cards@[x]) {
        Some(GameError::NoJailCard)
    } else {
        None
    }
}

/// `t` is `s` after player `i` leaves jail by spending their first kept
/// card, which goes under the deck it came from.
pub open spec fn jail_card_used(s: GameState, t: GameState, i: int) -> bool {
    let p = s.players@[i];
    let hand = p.held_cards@;
    exists|c: int| #![trigger first_keep(hand, c)] first_keep(hand, c) && {
        let card = hand[c];
        &&& t.players@.len() == s.players@.len()
        &&& forall|j: int| 0 <= j < s.players@.len() && j != i ==> #[trigger] t.players@[j] == s.players@[j]
        &&& t.players@[i] == (PlayerState { held_cards: t.players@[i].held_cards, ..released(p) })
        &&& t.players@[i].held_cards@ == hand.remove(c)
        &&& t.chance_deck@ == if card.deck == DeckKind::Chance { s.chance_deck@.push(card) } else { s.chance_deck@ }
        &&& t.community_chest_deck@ == if card.deck == DeckKind::CommunityChest {
            s.community_chest_deck@.push(card)
        } else {
            s.community_chest_deck@
        }
        &&& same_table(s, t)
        &&& t.phase == s.phase
    }
}

/// Events of the current player of `s` rolling `d1` and `d2`, ending as
/// `t`: a jail event where the roll was made in jail or jails them, then
/// the events of landing where they move.
pub open spec fn roll_events(s: GameState, t: GameState, d1: u8, d2: u8) -> Seq<ServerMessage> {
    let i = s.current_turn as int;
    let p = s.players@[i];
    let double = d1 == d2;
    let q = roll_prepared(p, double);
    let pre = if p.is_in_jail { seq![jail_msg(q)] } else { Seq::<ServerMessage>::empty() };
    if roll_moves(p, double) {
        let ps = s.players@.update(i, moved(q, d1 + d2));
        pre + landing_events(ps, s.chance_deck@, s.community_chest_deck@, t.players@, i)
    } else if p.is_in_jail {
        pre
    } else {
        seq![jail_msg(t.players@[i])]
    }
}

/// Drawing keeps a deck's cards valid.
pub proof fn lemma_draw_valid(deck: Seq<Card>)
    requires
        cards_valid(deck),
    ensures
        cards_valid(deck_after_draw(deck)),
{
    if deck.len() > 0 {
        let t = deck_after_draw(deck);
        assert forall|i: int| 0 <= i < t.len() implies card_valid(#[trigger] t[i]) by {
            if i < deck.len() - 1 {
                assert(t[i] == deck[i + 1]);
            } else {
                assert(t[i] == deck[0]);
            }
        }
    }
}

/// `c` is the first kept card of `cards`.
pub open spec fn first_keep(cards: Seq<Card>, c: int) -> bool {
    &&& 0 <= c < cards.len()
    &&& is_keep(cards[c])
    &&& forall|x: int| 0 <= x < c ==> !is_keep(#[trigger] cards[x])
}

/// `p` released from jail.
pub open spec fn released(p: PlayerState) -> PlayerState {
    PlayerState { is_in_jail: false, jail_turns: 0, ..p }
}

/// Both lists name the same players at the same places.
pub open spec fn same_ids(a: Seq<PlayerState>, b: Seq<PlayerState>) -> bool {
    a.len() == b.len() && forall|j: int| 0 <= j < a.len() ==> #[trigger] b[j].id == a[j].id
}

/// Player lists with the same ids agree on who is present and on distinctness.
pub proof fn lemma_same_ids(a: Seq<PlayerState>, b: Seq<PlayerState>)
    requires
        same_ids(a, b),
    ensures
        forall|who: Seq<char>| has_player(a, who) == #[trigger] has_player(b, who),
        ids_distinct(a) == ids_distinct(b),
{
    assert forall|who: Seq<char>| has_player(a, who) implies #[trigger] has_player(b, who) by {
        let j = choose|j: int| 0 <= j < a.len() && #[trigger] a[j].id@ == who;
        assert(b[j].id@ == who);
    }
    assert forall|who: Seq<char>| has_player(b, who) implies #[trigger] has_player(a, who) by {
        let j = choose|j: int| 0 <= j < b.len() && #[trigger] b[j].id@ == who;
        assert(a[j].id == b[j].id);
    }
    if ids_distinct(a) {
        assert forall|x: int, y: int| 0 <= x < b.len() && 0 <= y < b.len() && x != y implies #[trigger] b[x].id@
            != #[trigger] b[y].id@ by {
            assert(a[x].id == b[x].id && a[y].id == b[y].id);
        }
    }
    if ids_distinct(b) {
        assert forall|x: int, y: int| 0 <= x < a.len() && 0 <= y < a.len() && x != y implies #[trigger] a[x].id@
            != #[trigger] a[y].id@ by {
            assert(a[x].id == b[x].id && a[y].id == b[y].id);
        }
    }
}

/// A state differing only in its players keeps the invariant when the
/// players keep their ids, positions on the board and valid cards.
pub proof fn lemma_players_wf(s: GameState, t: GameState)
    requires
        s.wf(),
        same_table(s, t),
        same_ids(s.players@, t.players@),
        forall|i: int| 0 <= i < t.players@.len() ==> player_wf(#[trigger] t.players@[i]),
        cards_valid(t.chance_deck@),
        cards_valid(t.community_chest_deck@),
        has_plain_card(t.chance_deck@),
        has_plain_card(t.community_chest_deck@),
    ensures
        t.wf(),
{
    lemma_same_ids(s.players@, t.players@);
    assert(owners_present(t.properties@, t.players@)) by {
        assert forall|i: int| 0 <= i < t.properties@.len() implies ((#[trigger] t.properties@[i]).owner_id matches Some(o)
            ==> has_player(t.players@, o@)) by {
            if let Some(o) = t.properties@[i].owner_id {
                assert(has_player(s.players@, o@));
            }
        }
    }
}

/// Two dice, each from one to six.
pub fn roll_dice() -> (r: (u8, u8))
    ensures
        1 <= r.0 <= 6,
        1 <= r.1 <= 6,
{
    (roll_die(), roll_die())
}

/// Cash held by `ps` changes by `a * (n - 1) - a * (n - 1)`, i.e. not at
/// all, when one player collects `a` from each of the `n - 1` others.
pub proof fn lemma_collect_from_all_conserves(ps: Seq<PlayerState>, qs: Seq<PlayerState>, idx: int, a: int)
    requires
        0 <= idx < ps.len(),
        qs.len() == ps.len(),
        forall|j: int| 0 <= j < ps.len() ==> #[trigger] qs[j].money == ps[j].money + if j == idx { a * (ps.len() - 1) } else { -a },
    ensures
        cash_total(qs) == cash_total(ps),
{
    let f = |q: PlayerState| q.money as int;
    let xs = ps.map_values(f);
    let ys = qs.map_values(f);
    lemma_sum_shift(xs, ys, idx, a);
}

/// A sequence shifted by `-a` everywhere but at `idx`, where it gains
/// `a * (len - 1)`, keeps its sum.
proof fn lemma_sum_shift(xs: Seq<int>, ys: Seq<int>, idx: int, a: int)
    requires
        0 <= idx < xs.len(),
        ys.len() == xs.len(),
        forall|j: int| 0 <= j < xs.len() ==> #[trigger] ys[j] == xs[j] + if j == idx { a * (xs.len() - 1) } else { -a },
    ensures
        seq_sum(ys) == seq_sum(xs),
{
    lemma_sum_offsets(xs, ys, idx, a, xs.len() as int);
    assert(xs.subrange(0, xs.len() as int) =~= xs);
    assert(ys.subrange(0, ys.len() as int) =~= ys);
}

/// Over the first `k` entries the shift adds `-a` per entry, plus
/// `a * len` once `idx` is among them.
proof fn lemma_sum_offsets(xs: Seq<int>, ys: Seq<int>, idx: int, a: int, k: int)
    requires
        0 <= idx < xs.len(),
        ys.len() == xs.len(),
        0 <= k <= xs.len(),
        forall|j: int| 0 <= j < xs.len() ==> #[trigger] ys[j] == xs[j] + if j == idx { a * (xs.len() - 1) } else { -a },
    ensures
        seq_sum(ys.subrange(0, k)) == seq_sum(xs.subrange(0, k)) - a * k + if idx < k { a * xs.len() } else { 0 },
    decreases k,
{
    if k > 0 {
        lemma_sum_offsets(xs, ys, idx, a, k - 1);
        assert(xs.subrange(0, k).drop_last() =~= xs.subrange(0, k - 1));
        assert(ys.subrange(0, k).drop_last() =~= ys.subrange(0, k - 1));
        assert(a * k == a * (k - 1) + a) by (nonlinear_arith);
        assert(a * (xs.len() - 1) == a * xs.len() - a) by (nonlinear_arith);
    }
}

impl GameState {
    /// Moves player `player_index` forward `steps` tiles, paying the start
    /// bonus when the move wraps past the start tile.
    pub fn move_player(&mut self, player_index: usize, steps: u8)
        requires
            old(self).wf(),
            old(self).cash_within(STEP_CASH_LIMIT as int),
        ensures
            final(self).wf(),
            player_index < old(self).players@.len() ==> {
                &&& same_table(*old(self), *final(self))
                &&& same_decks(*old(self), *final(self))
                &&& final(self).players@ == old(self).players@.update(player_index as int,
                    moved(old(self).players@[player_index as int], steps as int))
                &&& final(self).phase == old(self).phase
            },
            player_index >= old(self).players@.len() ==> *final(self) == *old(self),
            final(self).cash_within(STEP_CASH_LIMIT + GO_BONUS),
    {
        if player_index < self.players.len() {
            let ghost s = *self;
            let old_pos = self.players[player_index].position;
            let new_pos = (old_pos + steps as usize) % BOARD_SIZE;
            self.players[player_index].position = new_pos;
            if new_pos < old_pos {
                self.players[player_index].money = self.players[player_index].money + GO_BONUS;
            }
            proof {
                assert(self.players@ =~= s.players@.update(player_index as int, moved(s.players@[player_index as int], steps as int)));
                lemma_players_wf(s, *self);
            }
        }
    }

    /// Jail-state event for player `player_index`.
    fn jail_event(&self, player_index: usize) -> (r: ServerMessage)
        requires
            player_index < self.players@.len(),
        ensures
            r == jail_msg(self.players@[player_index as int]),
    {
        ServerMessage::JailStateUpdated {
            player_id: self.players[player_index].id.clone(),
            is_in_jail: self.players[player_index].is_in_jail,
            jail_turns: self.players[player_index].jail_turns,
        }
    }

    /// Counts the houses and hotels standing on the properties of `who`.
    fn count_buildings(&self, who: &str) -> (r: (i32, i32))
        requires
            properties_wf(self.properties@),
        ensures
            r.0 == houses_owned(self.properties@, who@),
            r.1 == hotels_owned(self.properties@, who@),
            0 <= r.0 <= 4 * PROPERTY_COUNT,
            0 <= r.1 <= PROPERTY_COUNT,
    {
        let mut houses: i32 = 0;
        let mut hotels: i32 = 0;
        let mut k: usize = 0;
        while k < self.properties.len()
            invariant
                properties_wf(self.properties@),
                k <= self.properties@.len(),
                houses == seq_sum(house_terms(self.properties@, who@).subrange(0, k as int)),
                hotels == seq_sum(hotel_terms(self.properties@, who@).subrange(0, k as int)),
                0 <= houses <= 4 * k,
                0 <= hotels <= k,
            decreases self.properties@.len() - k,
        {
            let ghost hs = house_terms(self.properties@, who@);
            let ghost gs = hotel_terms(self.properties@, who@);
            assert(hs.subrange(0, k + 1).drop_last() =~= hs.subrange(0, k as int));
            assert(gs.subrange(0, k + 1).drop_last() =~= gs.subrange(0, k as int));
            let lv = self.properties[k].houses;
            if is_owned_by(&self.properties[k], who) {
                if lv == 5 {
                    hotels = hotels + 1;
                } else {
                    houses = houses + lv as i32;
                }
            }
            assert(hs[k as int] == (if owned_by(self.properties@[k as int], who@) { level_houses(lv) } else { 0 }));
            assert(gs[k as int] == (if owned_by(self.properties@[k as int], who@) { level_hotels(lv) } else { 0 }));
            assert(hs.subrange(0, k + 1).last() == hs[k as int]);
            assert(gs.subrange(0, k + 1).last() == gs[k as int]);
            assert(seq_sum(hs.subrange(0, k + 1)) == seq_sum(hs.subrange(0, k as int)) + hs[k as int]);
            assert(seq_sum(gs.subrange(0, k + 1)) == seq_sum(gs.subrange(0, k as int)) + gs[k as int]);
            k += 1;
        }
        assert(house_terms(self.properties@, who@).subrange(0, k as int) =~= house_terms(self.properties@, who@));
        assert(hotel_terms(self.properties@, who@).subrange(0, k as int) =~= hotel_terms(self.properties@, who@));
        (houses, hotels)
    }

    /// Takes the top chance card; it goes under the deck unless it is kept.
    fn draw_chance_card(&mut self) -> (r: Option<Card>)
        requires
            old(self).wf(),
        ensures
            final(self).wf(),
            same_table(*old(self), *final(self)),
            final(self).players == old(self).players,
            final(self).phase == old(self).phase,
            final(self).community_chest_deck == old(self).community_chest_deck,
            final(self).chance_deck@ == deck_after_draw(old(self).chance_deck@),
            r is None <==> old(self).chance_deck@.len() == 0,
            r matches Some(c) ==> c == old(self).chance_deck@[0] && card_valid(c),
    {
        proof {
            lemma_draw_valid(self.chance_deck@);
            lemma_draw_keeps_plain(self.chance_deck@);
        }
        draw_from(&mut self.chance_deck)
    }

    /// Takes the top community chest card; it goes under the deck unless it is kept.
    fn draw_community_chest_card(&mut self) -> (r: Option<Card>)
        requires
            old(self).wf(),
        ensures
            final(self).wf(),
            same_table(*old(self), *final(self)),
            final(self).players == old(self).players,
            final(self).phase == old(self).phase,
            final(self).chance_deck == old(self).chance_deck,
            final(self).community_chest_deck@ == deck_after_draw(old(self).community_chest_deck@),
            r is None <==> old(self).community_chest_deck@.len() == 0,
            r matches Some(c) ==> c == old(self).community_chest_deck@[0] && card_valid(c),
    {
        proof {
            lemma_draw_valid(self.community_chest_deck@);
            lemma_draw_keeps_plain(self.community_chest_deck@);
        }
        draw_from(&mut self.community_chest_deck)
    }

    /// Applies the effect of the tile player `player_index` stands on: a
    /// card from the tile's deck, a tax, or jail.
    pub fn handle_landing(&mut self, player_index: usize) -> (events: Vec<ServerMessage>)
        requires
            old(self).wf(),
            old(self).cash_within(STEP_CASH_LIMIT + GO_BONUS),
            player_index < old(self).players@.len(),
        ensures
            final(self).wf(),
            same_table(*old(self), *final(self)),
            landing_players(old(self).players@, old(self).properties@, old(self).chance_deck@,
                old(self).community_chest_deck@, *final(self), player_index as int),
            final(self).phase == if landing_jails(old(self).players@, old(self).chance_deck@,
                old(self).community_chest_deck@, player_index as int) {
                GamePhase::EndTurn
            } else {
                old(self).phase
            },
            events@ == landing_events(old(self).players@, old(self).chance_deck@, old(self).community_chest_deck@,
                final(self).players@, player_index as int),
            final(self).cash_within(STEP_CASH_LIMIT + GO_BONUS + CARD_CASH_SWING),
    {
        let ghost s = *self;
        let i = player_index;
        let mut events: Vec<ServerMessage> = Vec::new();
        let position = self.players[i].position;
        if position == 2 || position == 17 || position == 33 {
            match self.draw_community_chest_card() {
                Some(card) => {
                    events.push(ServerMessage::CardDrawn { card, is_chance: false });
                    let ghost m = *self;
                    let mut more = self.apply_card_effect(i, &card);
                    events.append(&mut more);
                    assert(events@ =~= card_events(m.players@[i as int], card, self.players@[i as int], false));
                },
                None => {},
            }
        } else if position == 7 || position == 22 || position == 36 {
            match self.draw_chance_card() {
                Some(card) => {
                    events.push(ServerMessage::CardDrawn { card, is_chance: true });
                    let ghost m = *self;
                    let mut more = self.apply_card_effect(i, &card);
                    events.append(&mut more);
                    assert(events@ =~= card_events(m.players@[i as int], card, self.players@[i as int], true));
                },
                None => {},
            }
        } else if position == 4 || position == 38 {
            let tax: i32 = if position == 4 { 200_000 } else { 100_000 };
            self.players[i].money = self.players[i].money - tax;
            proof {
                assert(self.players@ =~= s.players@.update(i as int, paid(s.players@[i as int], -tax_at(position))));
                lemma_players_wf(s, *self);
            }
        } else if position == GO_TO_JAIL_POSITION {
            self.send_to_jail(i);
            events.push(self.jail_event(i));
        } else {
            assert(s.players@.update(i as int, paid(s.players@[i as int], -tax_at(position))) =~= s.players@);
        }
        events
    }

    /// Applies a roll of `d1` and `d2` for the current player: jail and
    /// doubles bookkeeping, the move, the landing effect and the next phase.
    fn apply_roll(&mut self, d1: u8, d2: u8) -> (events: Vec<ServerMessage>)
        requires
            old(self).wf(),
            old(self).cash_in_range(),
            old(self).current_turn < old(self).players@.len(),
            old(self).phase == GamePhase::Rolling,
            1 <= d1 <= 6,
            1 <= d2 <= 6,
        ensures
            final(self).wf(),
            roll_applied(*old(self), *final(self), d1, d2),
            events@ == roll_events(*old(self), *final(self), d1, d2),
            final(self).cash_within(STEP_CASH_LIMIT + GO_BONUS + CARD_CASH_SWING),
    {
        let ghost s = *self;
        let i = self.current_turn;
        let double = d1 == d2;
        let was_in_jail = self.players[i].is_in_jail;
        let ghost p = s.players@[i as int];
        let ghost q = roll_prepared(p, double);
        self.last_dice_roll = Some((d1, d2));
        let mut events: Vec<ServerMessage> = Vec::new();
        let mut moves = true;
        if was_in_jail {
            if double {
                self.players[i].is_in_jail = false;
                self.players[i].jail_turns = 0;
                self.players[i].doubles_count = 0;
                events.push(self.jail_event(i));
            } else {
                let turns = self.players[i].jail_turns + 1;
                if turns >= JAIL_TURN_LIMIT {
                    self.players[i].money = self.players[i].money - BAIL;
                    self.players[i].is_in_jail = false;
                    self.players[i].jail_turns = 0;
                } else {
                    self.players[i].jail_turns = turns;
                    moves = false;
                }
                events.push(self.jail_event(i));
            }
            proof {
                assert(self.players@ =~= s.players@.update(i as int, q));
            }
        } else {
            let count: u8 = if double { self.players[i].doubles_count + 1 } else { 0 };
            if count >= DOUBLES_LIMIT {
                moves = false;
            } else {
                self.players[i].doubles_count = count;
            }
            proof {
                if moves {
                    assert(self.players@ =~= s.players@.update(i as int, q));
                }
            }
        }
        let ghost s1 = GameState { last_dice_roll: self.last_dice_roll, ..s };
        proof {
            if moves {
                lemma_players_wf(s1, *self);
            }
        }
        if !moves {
            if !was_in_jail {
                let ghost m = *self;
                self.send_to_jail(i);
                proof {
                    assert(self.players@ =~= s.players@.update(i as int, q));
                }
                events.push(self.jail_event(i));
            } else {
                self.phase = GamePhase::EndTurn;
                proof {
                    lemma_players_wf(s1, *self);
                }
            }
        } else {
            let ghost m0 = *self;
            self.move_player(i, d1 + d2);
            let ghost m1 = *self;
            assert(m1.players@ == s.players@.update(i as int, moved(q, d1 + d2)));
            let mut landing = self.handle_landing(i);
            events.append(&mut landing);
            if self.phase == GamePhase::Rolling && !(double && !was_in_jail) {
                self.phase = GamePhase::EndTurn;
            }
        }
        events
    }

    /// Rolls for `player_id` with the given dice values, where it is that
    /// player's turn to roll.
    pub fn handle_roll_with(&mut self, player_id: &str, d1: u8, d2: u8) -> (r: Result<((u8, u8), Vec<ServerMessage>), GameError>)
        requires
            old(self).wf(),
            old(self).cash_in_range(),
            1 <= d1 <= 6,
            1 <= d2 <= 6,
        ensures
            final(self).wf(),
            match old(self).gate(player_id@, GamePhase::Rolling) {
                Some(e) => r == Err::<((u8, u8), Vec<ServerMessage>), GameError>(e) && *final(self) == *old(self),
                None => r is Ok && r->Ok_0.0 == (d1, d2) && roll_applied(*old(self), *final(self), d1, d2)
                    && r->Ok_0.1@ == roll_events(*old(self), *final(self), d1, d2),
            },
    {
        match self.check_gate(player_id, GamePhase::Rolling) {
            Err(e) => Err(e),
            Ok(()) => {
                let events = self.apply_roll(d1, d2);
                Ok(((d1, d2), events))
            },
        }
    }

    /// Rolls two dice for `player_id`, where it is that player's turn to roll.
    pub fn handle_roll(&mut self, player_id: &str) -> (r: Result<((u8, u8), Vec<ServerMessage>), GameError>)
        requires
            old(self).wf(),
            old(self).cash_in_range(),
        ensures
            final(self).wf(),
            match old(self).gate(player_id@, GamePhase::Rolling) {
                Some(e) => r == Err::<((u8, u8), Vec<ServerMessage>), GameError>(e) && *final(self) == *old(self),
                None => r matches Ok((d, events)) && 1 <= d.0 <= 6 && 1 <= d.1 <= 6
                    && roll_applied(*old(self), *final(self), d.0, d.1)
                    && events@ == roll_events(*old(self), *final(self), d.0, d.1),
            },
    {
        match self.check_gate(player_id, GamePhase::Rolling) {
            Err(e) => Err(e),
            Ok(()) => {
                let (d1, d2) = roll_dice();
                self.handle_roll_with(player_id, d1, d2)
            },
        }
    }

    /// Ends `player_id`'s turn: the next player in order starts rolling.
    pub fn next_turn(&mut self, player_id: &str) -> (r: Result<(), GameError>)
        requires
            old(self).wf(),
        ensures
            final(self).wf(),
            match old(self).gate(player_id@, GamePhase::EndTurn) {
                Some(e) => r == Err::<(), GameError>(e) && *final(self) == *old(self),
                None => r is Ok && turn_passed(*old(self), *final(self)),
            },
    {
        match self.check_gate(player_id, GamePhase::EndTurn) {
            Err(e) => Err(e),
            Ok(()) => {
                let ghost s = *self;
                let n = self.players.len();
                assert(self.current_turn < n);
                self.current_turn = (self.current_turn + 1) % n;
                self.phase = GamePhase::Rolling;
                self.rent_paid = false;
                let next = self.current_turn;
                self.players[next].doubles_count = 0;
                proof {
                    assert(self.players@ =~= s.players@.update(next as int,
                        PlayerState { doubles_count: 0, ..s.players@[next as int] }));
                    let t = GameState { current_turn: s.current_turn, rent_paid: s.rent_paid, ..*self };
                    lemma_players_wf(s, t);
                }
                Ok(())
            },
        }
    }

    /// Releases jailed player `player_index` for the fixed bail.
    pub fn pay_bail(&mut self, player_index: usize) -> (r: Result<Vec<ServerMessage>, GameError>)
        requires
            old(self).wf(),
        ensures
            final(self).wf(),
            match bail_error(*old(self), player_index as int) {
                Some(e) => r == Err::<Vec<ServerMessage>, GameError>(e),
                None => r is Ok && bail_paid(*old(self), *final(self), player_index as int),
            },
            r is Err ==> *final(self) == *old(self),
            r matches Ok(events) ==> events@ == seq![jail_msg(final(self).players@[player_index as int])],
    {
        if player_index >= self.players.len() {
            return Err(GameError::PlayerNotFound);
        }
        let i = player_index;
        if !self.players[i].is_in_jail {
            return Err(GameError::NotInJail);
        }
        if self.players[i].money < BAIL {
            return Err(GameError::NotEnoughMoney);
        }
        let ghost s = *self;
        self.players[i].money = self.players[i].money - BAIL;
        self.players[i].is_in_jail = false;
        self.players[i].jail_turns = 0;
        proof {
            let q = released(paid(s.players@[i as int], -BAIL));
            assert(self.players@ =~= s.players@.update(i as int, q));
            lemma_cash_update(s.players@, i as int, q);
            lemma_players_wf(s, *self);
        }
        let mut events: Vec<ServerMessage> = Vec::new();
        events.push(self.jail_event(i));
        assert(events@ =~= seq![jail_msg(self.players@[i as int])]);
        Ok(events)
    }

    /// Releases jailed player `player_index` by spending a kept card, which
    /// goes back under the deck it came from.
    pub fn use_jail_card(&mut self, player_index: usize) -> (r: Result<Vec<ServerMessage>, GameError>)
        requires
            old(self).wf(),
        ensures
            final(self).wf(),
            match jail_card_error(*old(self), player_index as int) {
                Some(e) => r == Err::<Vec<ServerMessage>, GameError>(e),
                None => r is Ok && jail_card_used(*old(self), *final(self), player_index as int),
            },
            r is Err ==> *final(self) == *old(self),
            r matches Ok(events) ==> events@ == seq![jail_msg(final(self).players@[player_index as int])],
    {
        if player_index >= self.players.len() {
            return Err(GameError::PlayerNotFound);
        }
        let i = player_index;
        if !self.players[i].is_in_jail {
            return Err(GameError::NotInJail);
        }
        let ghost s = *self;
        let ghost hand = s.players@[i as int].held_cards@;
        let mut c: usize = 0;
        let mut found = false;
        let n = self.players[i].held_cards.len();
        while c < n && !found
            invariant
                *self == s,
                i < self.players@.len(),
                hand == self.players@[i as int].held_cards@,
                n == hand.len(),
                c <= n,
                found ==> c < n && is_keep(hand[c as int]),
                forall|x: int| 0 <= x < c ==> !is_keep(#[trigger] hand[x]),
            decreases n - c + if found { 0int } else { 1int },
        {
            if self.players[i].held_cards[c].effect.is_get_out_of_jail() {
                found = true;
            } else {
                c += 1;
            }
        }
        if !found {
            return Err(GameError::NoJailCard);
        }
        assert(first_keep(hand, c as int));
        let card = self.players[i].held_cards.remove(c);
        self.players[i].is_in_jail = false;
        self.players[i].jail_turns = 0;
        match card.deck {
            DeckKind::Chance => self.chance_deck.push(card),
            DeckKind::CommunityChest => self.community_chest_deck.push(card),
        }
        proof {
            let hand2 = self.players@[i as int].held_cards@;
            assert(hand2 =~= hand.remove(c as int));
            assert(cards_valid(hand2)) by {
                assert forall|x: int| 0 <= x < hand2.len() implies card_valid(#[trigger] hand2[x]) by {
                    if x < c { assert(hand2[x] == hand[x]); } else { assert(hand2[x] == hand[x + 1]); }
                }
            }
            assert(card_valid(card));
            lemma_append_keeps_plain(s.chance_deck@, seq![card]);
            lemma_append_keeps_plain(s.community_chest_deck@, seq![card]);
            assert(s.chance_deck@.push(card) =~= s.chance_deck@ + seq![card]);
            assert(s.community_chest_deck@.push(card) =~= s.community_chest_deck@ + seq![card]);
            assert(forall|j: int| 0 <= j < s.players@.len() && j != i ==> #[trigger] self.players@[j] == s.players@[j]);
            lemma_players_wf(s, *self);
        }
        let mut events: Vec<ServerMessage> = Vec::new();
        events.push(self.jail_event(i));
        assert(events@ =~= seq![jail_msg(self.players@[i as int])]);
        Ok(events)
    }

    /// Player `i` collects `a` from every other player.
    fn collect_from_all(&mut self, i: usize, a: i32)
        requires
            old(self).wf(),
            old(self).cash_within(STEP_CASH_LIMIT + GO_BONUS),
            i < old(self).players@.len(),
            0 <= a <= CARD_AMOUNT_LIMIT,
        ensures
            final(self).wf(),
            same_table(*old(self), *final(self)),
            same_decks(*old(self), *final(self)),
            final(self).phase == old(self).phase,
            final(self).players@.len() == old(self).players@.len(),
            forall|x: int| 0 <= x < old(self).players@.len() ==> #[trigger] final(self).players@[x] == paid(
                old(self).players@[x], if x == i { a * (old(self).players@.len() - 1) } else { -a }),
            final(self).total_cash() == old(self).total_cash(),
            final(self).cash_within(STEP_CASH_LIMIT + GO_BONUS + CARD_CASH_SWING),
    {
        let ghost s = *self;
        let n = self.players.len();
        let mut j: usize = 0;
        while j < n
            invariant
                s.wf(),
                s.cash_within(STEP_CASH_LIMIT + GO_BONUS),
                0 <= a <= CARD_AMOUNT_LIMIT,
                n == s.players@.len(),
                i < n,
                j <= n,
                same_table(s, *self),
                same_decks(s, *self),
                self.phase == s.phase,
                self.players@.len() == n,
                forall|x: int| 0 <= x < j ==> #[trigger] self.players@[x] == paid(s.players@[x], if x == i { 0 } else { -a }),
                forall|x: int| j <= x < n ==> #[trigger] self.players@[x] == s.players@[x],
            decreases n - j,
        {
            if j != i {
                self.players[j].money = self.players[j].money - a;
            } else {
                assert(self.players@[j as int] == paid(s.players@[j as int], 0));
            }
            j += 1;
        }
        assert(0 <= a * (n - 1) <= CARD_AMOUNT_LIMIT * (MAX_PLAYERS - 1)) by (nonlinear_arith)
            requires
                0 <= a <= CARD_AMOUNT_LIMIT,
                1 <= n <= MAX_PLAYERS,
        ;
        self.players[i].money = self.players[i].money + a * ((n - 1) as i32);
        proof {
            assert forall|x: int| 0 <= x < n implies #[trigger] self.players@[x] == paid(s.players@[x],
                if x == i { a * (n - 1) } else { -a }) by {
            }
            lemma_players_wf(s, *self);
            lemma_collect_from_all_conserves(s.players@, self.players@, i as int, a as int);
        }
    }

    /// Applies the effect of `card`, just drawn, to player `player_index`.
    /// A kept card goes to the player's hand.
    pub fn apply_card_effect(&mut self, player_index: usize, card: &Card) -> (events: Vec<ServerMessage>)
        requires
            old(self).wf(),
            old(self).cash_within(STEP_CASH_LIMIT + GO_BONUS),
            player_index < old(self).players@.len(),
            card_valid(*card),
        ensures
            final(self).wf(),
            same_decks(*old(self), *final(self)),
            card_effect_applied(*old(self), *final(self), player_index as int, *card),
            card.effect is CollectFromAll ==> final(self).total_cash() == old(self).total_cash(),
            events@ == if card_jails(old(self).players@[player_index as int], *card) {
                seq![jail_msg(final(self).players@[player_index as int])]
            } else {
                Seq::<ServerMessage>::empty()
            },
            final(self).cash_within(STEP_CASH_LIMIT + GO_BONUS + CARD_CASH_SWING),
    {
        let ghost s = *self;
        let i = player_index;
        let mut events: Vec<ServerMessage> = Vec::new();
        match card.effect {
            CardEffect::Collect(a) => {
                self.players[i].money = self.players[i].money + a;
                proof {
                    assert(self.players@ =~= s.players@.update(i as int, paid(s.players@[i as int], a as int)));
                    lemma_players_wf(s, *self);
                }
            },
            CardEffect::Pay(a) => {
                self.players[i].money = self.players[i].money - a;
                proof {
                    assert(self.players@ =~= s.players@.update(i as int, paid(s.players@[i as int], -a)));
                    lemma_players_wf(s, *self);
                }
            },
            CardEffect::Advance(to) => {
                let cur = self.players[i].position;
                if to < cur {
                    self.players[i].money = self.players[i].money + GO_BONUS;
                }
                self.players[i].position = to;
                proof {
                    assert(self.players@ =~= s.players@.update(i as int, advanced(s.players@[i as int], to)));
                    lemma_players_wf(s, *self);
                }
                if to == GO_TO_JAIL_POSITION {
                    let ghost m = *self;
                    self.send_to_jail(i);
                    proof {
                        assert(self.players@ =~= s.players@.update(i as int, jailed(advanced(s.players@[i as int], to))));
                        assert(self.players@ =~= m.players@.update(i as int, jailed(m.players@[i as int])));
                    }
                    events.push(self.jail_event(i));
                }
            },
            CardEffect::AdvanceNearestRailroad => {
                let cur = self.players[i].position;
                let to: usize = if cur < 5 { 5 } else if cur < 15 { 15 } else if cur < 25 { 25 } else if cur < 35 { 35 } else { 5 };
                if to < cur {
                    self.players[i].money = self.players[i].money + GO_BONUS;
                }
                self.players[i].position = to;
                proof {
                    assert(self.players@ =~= s.players@.update(i as int, advanced(s.players@[i as int], to)));
                    lemma_players_wf(s, *self);
                }
            },
            CardEffect::AdvanceNearestUtility => {
                let cur = self.players[i].position;
                let to: usize = if cur < 12 { 12 } else if cur < 28 { 28 } else { 12 };
                if to < cur {
                    self.players[i].money = self.players[i].money + GO_BONUS;
                }
                self.players[i].position = to;
                proof {
                    assert(self.players@ =~= s.players@.update(i as int, advanced(s.players@[i as int], to)));
                    lemma_players_wf(s, *self);
                }
            },
            CardEffect::Back(k) => {
                let cur = self.players[i].position;
                let to: usize = if cur >= k { cur - k } else { BOARD_SIZE + cur - k };
                self.players[i].position = to;
                let ghost q = PlayerState { position: to, ..s.players@[i as int] };
                proof {
                    assert(self.players@ =~= s.players@.update(i as int, q));
                    lemma_players_wf(s, *self);
                }
                if to == GO_TO_JAIL_POSITION {
                    let ghost m = *self;
                    self.send_to_jail(i);
                    proof {
                        assert(self.players@ =~= s.players@.update(i as int, jailed(q)));
                    }
                    events.push(self.jail_event(i));
                }
            },
            CardEffect::GoToJail => {
                self.send_to_jail(i);
                events.push(self.jail_event(i));
            },
            CardEffect::CollectFromAll(a) => {
                self.collect_from_all(i, a);
            },
            CardEffect::Repair { per_house, per_hotel } => {
                let (houses, hotels) = self.count_buildings(self.players[i].id.as_str());
                assert(0 <= houses * per_house <= 4 * PROPERTY_COUNT * CARD_AMOUNT_LIMIT) by (nonlinear_arith)
                    requires
                        0 <= per_house <= CARD_AMOUNT_LIMIT,
                        0 <= houses <= 4 * PROPERTY_COUNT,
                ;
                assert(0 <= hotels * per_hotel <= PROPERTY_COUNT * CARD_AMOUNT_LIMIT) by (nonlinear_arith)
                    requires
                        0 <= per_hotel <= CARD_AMOUNT_LIMIT,
                        0 <= hotels <= PROPERTY_COUNT,
                ;
                let cost = houses * per_house + hotels * per_hotel;
                self.players[i].money = self.players[i].money - cost;
                proof {
                    assert(self.players@ =~= s.players@.update(i as int, paid(s.players@[i as int], -(houses * per_house
                        + hotels * per_hotel))));
                    lemma_players_wf(s, *self);
                }
            },
            CardEffect::GetOutOfJail => {
                self.players[i].held_cards.push(*card);
                proof {
                    assert(cards_valid(self.players@[i as int].held_cards@));
                    lemma_players_wf(s, *self);
                }
            },
        }
        events
    }

    /// Sends player `player_index` to jail and ends the movement part of the turn.
    pub fn send_to_jail(&mut self, player_index: usize)
        requires
            old(self).wf(),
        ensures
            final(self).wf(),
            same_table(*old(self), *final(self)),
            same_decks(*old(self), *final(self)),
            player_index < old(self).players@.len() ==> final(self).players@ == old(self).players@.update(
                player_index as int, jailed(old(self).players@[player_index as int])),
            final(self).phase == GamePhase::EndTurn,
            player_index >= old(self).players@.len() ==> final(self).players == old(self).players
                && final(self).phase == GamePhase::EndTurn,
            old(self).cash_within(STEP_CASH_LIMIT as int) ==> final(self).cash_within(STEP_CASH_LIMIT as int),
    {
        let ghost s = *self;
        if player_index < self.players.len() {
            self.players[player_index].position = JAIL_POSITION;
            self.players[player_index].is_in_jail = true;
            self.players[player_index].jail_turns = 0;
            self.players[player_index].doubles_count = 0;
        }
        self.phase = GamePhase::EndTurn;
        proof {
            if player_index < s.players@.len() {
                assert(self.players@ =~= s.players@.update(player_index as int, jailed(s.players@[player_index as int])));
            }
            lemma_players_wf(s, *self);
        }
    }
}

} // verus!

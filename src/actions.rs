//! Buying the tile one stands on and paying rent for it.
use vstd::prelude::*;
use vstd::string::*;
use crate::board::{get_property, slot_price, tile_slot, lemma_tile_slot_inverse};
use crate::economy::rent_due;
use crate::error::GameError;
use crate::state::{GameState, GamePhase, PlayerState, PropertyState, has_player, player_index, lemma_cash_update, cash_total};
use crate::turn::paid;

verus! {

/// Outcome of a rent payment that was not refused.
#[derive(Debug)]
pub enum PayRentResult {
    /// The rent was paid to the owner.
    Success,
    /// The payer cannot cover the rent; nothing was paid.
    BankruptcyRequired { creditor_id: String, rent_owed: i32 },
}

/// Why `who` cannot buy the tile they stand on, if they can.
pub open spec fn buy_error(s: GameState, who: Seq<char>) -> Option<GameError> {
    match s.gate(who, GamePhase::EndTurn) {
        Some(e) => Some(e),
        None => {
            let p = s.players@[s.current_turn as int];
            match tile_slot(p.position) {
                None => Some(GameError::NotAProperty),
                Some(k) => if s.properties@[k].owner_id is Some {
                    Some(GameError::PropertyAlreadyOwned)
                } else if p.money < slot_price(k) {
                    Some(GameError::InsufficientFunds)
                } else {
                    None
                },
            }
        },
    }
}

/// `t` is `s` after the current player `who` buys the tile they stand on.
pub open spec fn property_bought(s: GameState, t: GameState, who: Seq<char>) -> bool {
    let i = s.current_turn as int;
    let p = s.players@[i];
    let k = tile_slot(p.position)->0;
    &&& t.players@ == s.players@.update(i, paid(p, -slot_price(k)))
    &&& t.properties@.len() == s.properties@.len()
    &&& forall|j: int| 0 <= j < s.properties@.len() && j != k ==> #[trigger] t.properties@[j] == s.properties@[j]
    &&& t.properties@[k] == (PropertyState { owner_id: t.properties@[k].owner_id, ..s.properties@[k] })
    &&& t.properties@[k].owner_id matches Some(o) && o@ == who
    &&& t.total_cash() == s.total_cash() - slot_price(k)
    &&& t == (GameState { players: t.players, properties: t.properties, ..s })
}

/// Owner of the tile the current player stands on.
pub open spec fn rent_owner(s: GameState) -> Seq<char> {
    let p = s.players@[s.current_turn as int];
    s.properties@[tile_slot(p.position)->0].owner_id->0@
}

/// Rent the current player owes on the tile they stand on.
pub open spec fn rent_amount(s: GameState) -> int {
    rent_due(s.properties@, s.players@[s.current_turn as int].position, dice_sum(s))
}

/// `t` is `s` after the current player pays the rent to the tile's owner.
pub open spec fn rent_transferred(s: GameState, t: GameState) -> bool {
    let i = s.current_turn as int;
    let j = player_index(s.players@, rent_owner(s));
    let rent = rent_amount(s);
    &&& j != i
    &&& t.players@ == s.players@.update(i, paid(s.players@[i], -rent)).update(j, paid(s.players@[j], rent))
    &&& t.total_cash() == s.total_cash()
    &&& t.rent_paid
    &&& t == (GameState { players: t.players, rent_paid: true, ..s })
}

/// Why `who` cannot pay rent on the tile they stand on, if they can.
pub open spec fn rent_error(s: GameState, who: Seq<char>) -> Option<GameError> {
    match s.gate(who, GamePhase::EndTurn) {
        Some(e) => Some(e),
        None => {
            let p = s.players@[s.current_turn as int];
            match tile_slot(p.position) {
                None => Some(GameError::NotAProperty),
                Some(k) => match s.properties@[k].owner_id {
                    None => Some(GameError::PropertyNotOwned),
                    Some(o) => if o@ == who { Some(GameError::OwnProperty) } else { None },
                },
            }
        },
    }
}

/// Dice sum on record for the turn, zero when none is.
pub open spec fn dice_sum(s: GameState) -> int {
    match s.last_dice_roll {
        Some((a, b)) => a + b,
        None => 0,
    }
}

/// The player found by id is the current one when ids are distinct.
proof fn lemma_current_index(s: GameState, who: Seq<char>, j: int)
    requires
        s.wf(),
        s.is_current(who),
        0 <= j < s.players@.len(),
        s.players@[j].id@ == who,
    ensures
        j == s.current_turn,
{
}

/// Buys the tile `player_id` stands on from the bank at its listed price.
pub fn handle_buy_property(game: &mut GameState, player_id: &str) -> (r: Result<(), GameError>)
    requires
        old(game).wf(),
    ensures
        final(game).wf(),
        r == (match buy_error(*old(game), player_id@) {
            Some(e) => Err::<(), GameError>(e),
            None => Ok(()),
        }),
        r is Err ==> *final(game) == *old(game),
        r is Ok ==> property_bought(*old(game), *final(game), player_id@),
{
    match game.check_gate(player_id, GamePhase::EndTurn) {
        Err(e) => return Err(e),
        Ok(()) => {},
    }
    let i = match game.find_player(player_id) {
        Some(i) => i,
        None => return Err(GameError::PlayerNotFound),
    };
    proof { lemma_current_index(*game, player_id@, i as int); }
    let position = game.players[i].position;
    let info = match get_property(position) {
        Some(info) => info,
        None => return Err(GameError::NotAProperty),
    };
    let k = match game.property_slot(position) {
        Some(k) => k,
        None => return Err(GameError::PropertyNotFound),
    };
    if game.properties[k].owner_id.is_some() {
        return Err(GameError::PropertyAlreadyOwned);
    }
    if game.players[i].money < info.price {
        return Err(GameError::InsufficientFunds);
    }
    let ghost s = *game;
    game.players[i].money = game.players[i].money - info.price;
    game.properties[k].owner_id = Some(String::from_str(player_id));
    proof {
        assert(game.players@ =~= s.players@.update(i as int, paid(s.players@[i as int], -info.price)));
        lemma_cash_update(s.players@, i as int, paid(s.players@[i as int], -info.price));
        let f = |q: PropertyState| crate::state::level_houses(q.houses);
        let g = |q: PropertyState| crate::state::level_hotels(q.houses);
        assert(game.properties@.map_values(f) =~= s.properties@.map_values(f));
        assert(game.properties@.map_values(g) =~= s.properties@.map_values(g));
        assert(has_player(game.players@, player_id@)) by {
            assert(game.players@[i as int].id@ == player_id@);
        }
        assert forall|x: int| 0 <= x < game.players@.len() implies crate::state::player_wf(#[trigger] game.players@[x]) by {
            assert(crate::state::player_wf(s.players@[x]));
        }
        assert forall|o: Seq<char>| has_player(s.players@, o) implies has_player(game.players@, o) by {
            let j = choose|j: int| 0 <= j < s.players@.len() && #[trigger] s.players@[j].id@ == o;
            assert(game.players@[j].id@ == o);
        }
    }
    Ok(())
}

/// Pays the rent owed by `player_id` on the tile they stand on to its
/// owner. Where the payer's cash does not cover it, nothing is paid and the
/// creditor and amount are returned so that bankruptcy can be settled.
pub fn handle_pay_rent(game: &mut GameState, player_id: &str) -> (r: Result<PayRentResult, GameError>)
    requires
        old(game).wf(),
        old(game).cash_in_range(),
    ensures
        final(game).wf(),
        match rent_error(*old(game), player_id@) {
            Some(e) => r == Err::<PayRentResult, GameError>(e) && *final(game) == *old(game),
            None => if old(game).players@[old(game).current_turn as int].money < rent_amount(*old(game)) {
                &&& r matches Ok(PayRentResult::BankruptcyRequired { creditor_id, rent_owed })
                    && creditor_id@ == rent_owner(*old(game)) && rent_owed == rent_amount(*old(game))
                &&& *final(game) == *old(game)
            } else {
                &&& r matches Ok(PayRentResult::Success)
                &&& rent_transferred(*old(game), *final(game))
            },
        },
{
    match game.check_gate(player_id, GamePhase::EndTurn) {
        Err(e) => return Err(e),
        Ok(()) => {},
    }
    let i = match game.find_player(player_id) {
        Some(i) => i,
        None => return Err(GameError::PlayerNotFound),
    };
    proof { lemma_current_index(*game, player_id@, i as int); }
    let position = game.players[i].position;
    if get_property(position).is_none() {
        return Err(GameError::NotAProperty);
    }
    let k = match game.property_slot(position) {
        Some(k) => k,
        None => return Err(GameError::PropertyNotFound),
    };
    let owner = match &game.properties[k].owner_id {
        Some(o) => o.clone(),
        None => return Err(GameError::PropertyNotOwned),
    };
    if crate::state::same_id(&owner, player_id) {
        return Err(GameError::OwnProperty);
    }
    let dice: u8 = match game.last_dice_roll {
        Some((a, b)) => a + b,
        None => 0,
    };
    let rent = game.calculate_rent(position, dice);
    if game.players[i].money < rent {
        return Ok(PayRentResult::BankruptcyRequired { creditor_id: owner, rent_owed: rent });
    }
    let ghost s = *game;
    proof {
        assert(has_player(s.players@, owner@));
    }
    let j = match game.find_player(owner.as_str()) {
        Some(j) => j,
        None => return Ok(PayRentResult::Success),
    };
    proof {
        let jj = player_index(s.players@, owner@);
        assert(s.players@[jj].id@ == owner@);
        assert(jj == j);
    }
    game.players[i].money = game.players[i].money - rent;
    game.players[j].money = game.players[j].money + rent;
    game.rent_paid = true;
    proof {
        let p1 = paid(s.players@[i as int], -rent);
        let mid = s.players@.update(i as int, p1);
        assert(game.players@ =~= mid.update(j as int, paid(s.players@[j as int], rent as int)));
        lemma_cash_update(s.players@, i as int, p1);
        lemma_cash_update(mid, j as int, paid(s.players@[j as int], rent as int));
        assert forall|x: int| 0 <= x < game.players@.len() implies crate::state::player_wf(#[trigger] game.players@[x]) by {
            assert(crate::state::player_wf(s.players@[x]));
        }
        assert forall|o: Seq<char>| has_player(s.players@, o) implies has_player(game.players@, o) by {
            let w = choose|w: int| 0 <= w < s.players@.len() && #[trigger] s.players@[w].id@ == o;
            assert(game.players@[w].id@ == o);
        }
    }
    Ok(PayRentResult::Success)
}

} // verus!

use campus_monopoly::actions::{handle_buy_property, handle_pay_rent, PayRentResult};
use campus_monopoly::cards::{create_chance_deck, draw_from, CardEffect};
use campus_monopoly::messages::ServerMessage;
use campus_monopoly::state::{GamePhase, GameState, PlayerState};
use campus_monopoly::trade::TradeOffer;

fn player(id: &str, money: i32, position: usize) -> PlayerState {
    PlayerState {
        id: id.to_string(),
        name: format!("Name of {}", id),
        money,
        position,
        color: "red".to_string(),
        is_in_jail: false,
        jail_turns: 0,
        doubles_count: 0,
        held_cards: Vec::new(),
    }
}

fn slot_of(game: &GameState, id: usize) -> usize {
    game.properties.iter().position(|p| p.id == id).unwrap()
}

fn give(game: &mut GameState, id: usize, owner: &str) {
    let k = slot_of(game, id);
    game.properties[k].owner_id = Some(owner.to_string());
}

#[test]
fn roll_past_start_then_buy_tile_one() {
    let mut game = GameState::new();
    game.players.push(player("a", 1_500_000, 38));
    game.players.push(player("b", 1_500_000, 0));
    game.phase = GamePhase::Rolling;

    let (dice, _) = game.handle_roll_with("a", 1, 2).unwrap();
    assert_eq!(dice, (1, 2));
    assert_eq!(game.players[0].position, 1);
    assert_eq!(game.phase, GamePhase::EndTurn);
    // passing the start tile pays the start bonus
    assert_eq!(game.players[0].money, 1_700_000);

    assert!(handle_buy_property(&mut game, "a").is_ok());
    assert_eq!(game.players[0].money, 1_640_000);
    let k = slot_of(&game, 1);
    assert_eq!(game.properties[k].owner_id, Some("a".to_string()));
}

#[test]
fn pink_monopoly_rent_doubles_then_multiplies_with_a_house() {
    let mut game = GameState::new();
    game.players.push(player("a", 1_000_000, 0));
    game.players.push(player("b", 1_000_000, 11));
    for id in [11, 13, 14] {
        give(&mut game, id, "a");
    }
    game.current_turn = 1;
    game.phase = GamePhase::EndTurn;

    assert_eq!(game.calculate_rent(11, 0), 20_000);
    match handle_pay_rent(&mut game, "b").unwrap() {
        PayRentResult::Success => {}
        PayRentResult::BankruptcyRequired { .. } => panic!("rent should be covered"),
    }
    assert_eq!(game.players[1].money, 980_000);
    assert_eq!(game.players[0].money, 1_020_000);
    assert!(game.rent_paid);

    let k = slot_of(&game, 11);
    game.properties[k].houses = 1;
    game.total_houses -= 1;
    assert_eq!(game.calculate_rent(11, 0), 50_000);
}

#[test]
fn trade_swaps_properties_and_cash() {
    let mut game = GameState::new();
    game.players.push(player("ana", 500_000, 0));
    game.players.push(player("ben", 300_000, 0));
    give(&mut game, 5, "ana");
    give(&mut game, 12, "ben");

    let offer = TradeOffer { money: 50_000, property_ids: vec![5] };
    let request = TradeOffer { money: 0, property_ids: vec![12] };
    let events = game.handle_propose_trade("ana".to_string(), "ben".to_string(), offer, request).unwrap();
    assert_eq!(events.len(), 1);
    assert_eq!(game.active_trades.len(), 1);
    let id = game.active_trades[0].id.clone();

    assert!(game.handle_accept_trade(id, "ben".to_string()).is_ok());
    assert_eq!(game.properties[slot_of(&game, 5)].owner_id, Some("ben".to_string()));
    assert_eq!(game.properties[slot_of(&game, 12)].owner_id, Some("ana".to_string()));
    assert_eq!(game.players[0].money, 450_000);
    assert_eq!(game.players[1].money, 350_000);
    assert!(game.active_trades.is_empty());
}

#[test]
fn unpaid_rent_leads_to_bankruptcy_to_the_bank() {
    let mut game = GameState::new();
    game.players.push(player("debtor", 10_000, 5));
    game.players.push(player("owner", 1_000_000, 0));
    give(&mut game, 5, "owner");
    give(&mut game, 1, "debtor");
    give(&mut game, 3, "debtor");
    let k1 = slot_of(&game, 1);
    let k3 = slot_of(&game, 3);
    game.properties[k1].houses = 1;
    game.properties[k3].houses = 1;
    game.total_houses = 30;
    game.phase = GamePhase::EndTurn;

    match handle_pay_rent(&mut game, "debtor").unwrap() {
        PayRentResult::BankruptcyRequired { creditor_id, rent_owed } => {
            assert_eq!(creditor_id, "owner");
            assert_eq!(rent_owed, 25_000);
        }
        PayRentResult::Success => panic!("rent cannot be covered"),
    }
    assert_eq!(game.players[0].money, 10_000);
    assert_eq!(game.players[1].money, 1_000_000);

    let events = game.handle_bankruptcy("debtor", None);
    assert!(game.properties[k1].owner_id.is_none());
    assert!(game.properties[k3].owner_id.is_none());
    assert_eq!(game.properties[k1].houses, 0);
    assert_eq!(game.properties[k3].houses, 0);
    assert_eq!(game.total_houses, 32);
    assert_eq!(game.players.len(), 1);
    assert_eq!(game.players[0].id, "owner");
    assert_eq!(game.phase, GamePhase::GameOver);
    assert_eq!(game.winner, Some("owner".to_string()));
    assert!(events.iter().any(|e| matches!(e, ServerMessage::GameOver { winner_id, .. } if winner_id == "owner")));
}

#[test]
fn drawing_a_whole_deck_restores_its_order() {
    let mut deck = create_chance_deck();
    deck.retain(|c| c.effect != CardEffect::GetOutOfJail);
    let before: Vec<u8> = deck.iter().map(|c| c.id).collect();
    let n = deck.len();
    let mut drawn = Vec::new();
    for _ in 0..n {
        drawn.push(draw_from(&mut deck).unwrap().id);
    }
    let after: Vec<u8> = deck.iter().map(|c| c.id).collect();
    assert_eq!(after, before);
    assert_eq!(drawn, before);
    // part way through, the deck is rotated
    draw_from(&mut deck);
    let rotated: Vec<u8> = deck.iter().map(|c| c.id).collect();
    let mut expected = before[1..].to_vec();
    expected.push(before[0]);
    assert_eq!(rotated, expected);
}

use campus_monopoly::board::{building_cost, get_property, PropertyGroup};
use campus_monopoly::cards::{Card, CardEffect, DeckKind};
use campus_monopoly::error::GameError;
use campus_monopoly::messages::ClientMessage;
use campus_monopoly::room::Player;
use campus_monopoly::session::{vote_outcome, votes_required, VoteOutcome};
use campus_monopoly::state::{GamePhase, GameState, PlayerState};
use campus_monopoly::trade::TradeOffer;

fn player(id: &str, money: i32, position: usize) -> PlayerState {
    PlayerState {
        id: id.to_string(),
        name: id.to_uppercase(),
        money,
        position,
        color: "blue".to_string(),
        is_in_jail: false,
        jail_turns: 0,
        doubles_count: 0,
        held_cards: Vec::new(),
    }
}

fn two_players() -> GameState {
    let mut game = GameState::new();
    game.players.push(player("a", 1_000_000, 0));
    game.players.push(player("b", 1_000_000, 0));
    game.phase = GamePhase::Rolling;
    game
}

fn slot_of(game: &GameState, id: usize) -> usize {
    game.properties.iter().position(|p| p.id == id).unwrap()
}

fn give(game: &mut GameState, id: usize, owner: &str) {
    let k = slot_of(game, id);
    game.properties[k].owner_id = Some(owner.to_string());
}

fn card(effect: CardEffect, deck: DeckKind) -> Card {
    Card { id: 99, title: "Test", description: "Test card", effect, deck }
}

#[test]
fn board_lookup_and_costs() {
    let info = get_property(39).unwrap();
    assert_eq!(info.price, 400_000);
    assert_eq!(info.rent, 50_000);
    assert_eq!(info.group, PropertyGroup::DarkBlue);
    assert_eq!(info.name, "Kedokteran");
    assert!(get_property(0).is_none());
    assert!(get_property(30).is_none());
    assert!(get_property(40).is_none());
    assert_eq!(building_cost(1), 50_000);
    assert_eq!(building_cost(14), 100_000);
    assert_eq!(building_cost(29), 150_000);
    assert_eq!(building_cost(39), 200_000);
    assert_eq!(building_cost(5), 0);
}

#[test]
fn new_game_has_shuffled_full_decks() {
    let game = GameState::new();
    assert_eq!(game.properties.len(), 28);
    assert_eq!(game.total_houses, 32);
    assert_eq!(game.total_hotels, 12);
    assert_eq!(game.phase, GamePhase::Waiting);
    for deck in [&game.chance_deck, &game.community_chest_deck] {
        let mut ids: Vec<u8> = deck.iter().map(|c| c.id).collect();
        ids.sort();
        assert_eq!(ids, (1..=16).collect::<Vec<u8>>());
    }
    assert!(game.chance_deck.iter().all(|c| c.deck == DeckKind::Chance));
    assert!(game.community_chest_deck.iter().all(|c| c.deck == DeckKind::CommunityChest));
}

#[test]
fn rolled_dice_are_in_range() {
    for _ in 0..40 {
        let mut game = two_players();
        let ((d1, d2), _) = game.handle_roll("a").unwrap();
        assert!((1..=6).contains(&d1) && (1..=6).contains(&d2));
        assert_eq!(game.last_dice_roll, Some((d1, d2)));
    }
}

#[test]
fn doubles_keep_the_turn_and_a_third_double_jails() {
    let mut game = two_players();
    game.handle_roll_with("a", 2, 2).unwrap();
    assert_eq!(game.players[0].position, 4);
    assert_eq!(game.players[0].money, 800_000);
    assert_eq!(game.players[0].doubles_count, 1);
    assert_eq!(game.phase, GamePhase::Rolling);

    game.players[0].doubles_count = 2;
    game.players[0].position = 0;
    game.handle_roll_with("a", 3, 3).unwrap();
    assert!(game.players[0].is_in_jail);
    assert_eq!(game.players[0].position, 10);
    assert_eq!(game.players[0].doubles_count, 0);
    assert_eq!(game.phase, GamePhase::EndTurn);
}

#[test]
fn landing_on_go_to_jail_tile() {
    let mut game = two_players();
    game.players[0].position = 26;
    game.handle_roll_with("a", 1, 3).unwrap();
    assert!(game.players[0].is_in_jail);
    assert_eq!(game.players[0].position, 10);
    assert_eq!(game.phase, GamePhase::EndTurn);
}

#[test]
fn jail_rolls() {
    let mut game = two_players();
    game.players[0].position = 10;
    game.players[0].is_in_jail = true;
    game.handle_roll_with("a", 1, 2).unwrap();
    assert!(game.players[0].is_in_jail);
    assert_eq!(game.players[0].jail_turns, 1);
    assert_eq!(game.players[0].position, 10);
    assert_eq!(game.phase, GamePhase::EndTurn);

    let mut game = two_players();
    game.players[0].position = 10;
    game.players[0].is_in_jail = true;
    game.handle_roll_with("a", 3, 3).unwrap();
    assert!(!game.players[0].is_in_jail);
    assert_eq!(game.players[0].position, 16);
    assert_eq!(game.phase, GamePhase::EndTurn);

    let mut game = two_players();
    game.players[0].position = 10;
    game.players[0].is_in_jail = true;
    game.players[0].jail_turns = 2;
    game.handle_roll_with("a", 1, 2).unwrap();
    assert!(!game.players[0].is_in_jail);
    assert_eq!(game.players[0].money, 950_000);
    assert_eq!(game.players[0].position, 13);
}

#[test]
fn bail_and_jail_card() {
    let mut game = two_players();
    assert_eq!(game.pay_bail(0).unwrap_err(), GameError::NotInJail);
    assert_eq!(game.pay_bail(5).unwrap_err(), GameError::PlayerNotFound);
    game.players[0].is_in_jail = true;
    game.players[0].money = 40_000;
    assert_eq!(game.pay_bail(0).unwrap_err(), GameError::NotEnoughMoney);
    game.players[0].money = 60_000;
    assert!(game.pay_bail(0).is_ok());
    assert_eq!(game.players[0].money, 10_000);
    assert!(!game.players[0].is_in_jail);

    game.players[0].is_in_jail = true;
    assert_eq!(game.use_jail_card(0).unwrap_err(), GameError::NoJailCard);
    let keep = card(CardEffect::GetOutOfJail, DeckKind::CommunityChest);
    game.players[0].held_cards.push(keep);
    let before = game.community_chest_deck.len();
    assert!(game.use_jail_card(0).is_ok());
    assert!(!game.players[0].is_in_jail);
    assert!(game.players[0].held_cards.is_empty());
    assert_eq!(game.community_chest_deck.len(), before + 1);
    assert_eq!(game.community_chest_deck.last().unwrap().id, 99);
}

#[test]
fn card_effects() {
    let mut game = two_players();
    game.players[0].position = 36;
    game.apply_card_effect(0, &card(CardEffect::Collect(150_000), DeckKind::Chance));
    assert_eq!(game.players[0].money, 1_150_000);
    game.apply_card_effect(0, &card(CardEffect::Pay(50_000), DeckKind::Chance));
    assert_eq!(game.players[0].money, 1_100_000);
    game.apply_card_effect(0, &card(CardEffect::AdvanceNearestRailroad, DeckKind::Chance));
    assert_eq!(game.players[0].position, 5);
    assert_eq!(game.players[0].money, 1_300_000);
    game.apply_card_effect(0, &card(CardEffect::AdvanceNearestUtility, DeckKind::Chance));
    assert_eq!(game.players[0].position, 12);
    game.apply_card_effect(0, &card(CardEffect::Advance(0), DeckKind::Chance));
    assert_eq!(game.players[0].position, 0);
    assert_eq!(game.players[0].money, 1_500_000);
    game.apply_card_effect(0, &card(CardEffect::Back(3), DeckKind::Chance));
    assert_eq!(game.players[0].position, 37);
    game.apply_card_effect(0, &card(CardEffect::CollectFromAll(10_000), DeckKind::CommunityChest));
    assert_eq!(game.players[0].money, 1_510_000);
    assert_eq!(game.players[1].money, 990_000);
    game.players[0].position = 33;
    game.apply_card_effect(0, &card(CardEffect::Back(3), DeckKind::Chance));
    assert!(game.players[0].is_in_jail);
    assert_eq!(game.players[0].position, 10);
    assert_eq!(game.phase, GamePhase::EndTurn);
}

#[test]
fn repair_levy_counts_houses_and_hotels() {
    let mut game = two_players();
    for id in [1, 3] {
        give(&mut game, id, "a");
    }
    let k1 = slot_of(&game, 1);
    let k3 = slot_of(&game, 3);
    game.properties[k1].houses = 5;
    game.properties[k3].houses = 4;
    game.total_houses = 28;
    game.total_hotels = 11;
    game.apply_card_effect(0, &card(CardEffect::Repair { per_house: 25_000, per_hotel: 100_000 }, DeckKind::Chance));
    assert_eq!(game.players[0].money, 1_000_000 - 4 * 25_000 - 100_000);
}

#[test]
fn keep_card_goes_to_hand() {
    let mut game = two_players();
    let keep = card(CardEffect::GetOutOfJail, DeckKind::Chance);
    game.apply_card_effect(1, &keep);
    assert_eq!(game.players[1].held_cards.len(), 1);
}

#[test]
fn tax_tiles() {
    let mut game = two_players();
    game.handle_roll_with("a", 1, 3).unwrap();
    assert_eq!(game.players[0].money, 800_000);
    let mut game = two_players();
    game.players[0].position = 35;
    game.handle_roll_with("a", 1, 2).unwrap();
    assert_eq!(game.players[0].position, 38);
    assert_eq!(game.players[0].money, 900_000);
}

#[test]
fn card_tile_draws_from_its_deck() {
    let mut game = two_players();
    let top = game.chance_deck[0];
    game.handle_roll_with("a", 3, 4).unwrap();
    assert_eq!(game.chance_deck.len(), if top.effect == CardEffect::GetOutOfJail { 15 } else { 16 });
    if top.effect != CardEffect::GetOutOfJail {
        assert_eq!(game.chance_deck.last().unwrap().id, top.id);
    }
}

#[test]
fn rent_formulas() {
    let mut game = two_players();
    give(&mut game, 12, "a");
    assert_eq!(game.calculate_rent(12, 7), 28_000);
    give(&mut game, 28, "a");
    assert_eq!(game.calculate_rent(12, 7), 70_000);
    give(&mut game, 5, "a");
    assert_eq!(game.calculate_rent(5, 7), 25_000);
    give(&mut game, 15, "a");
    give(&mut game, 25, "a");
    assert_eq!(game.calculate_rent(5, 7), 100_000);
    give(&mut game, 35, "a");
    assert_eq!(game.calculate_rent(35, 7), 200_000);
    give(&mut game, 6, "b");
    assert_eq!(game.calculate_rent(6, 7), 6_000);
    assert_eq!(game.calculate_rent(8, 7), 0);
    assert_eq!(game.calculate_rent(30, 7), 0);
}

#[test]
fn rent_errors() {
    let mut game = two_players();
    game.phase = GamePhase::EndTurn;
    assert_eq!(campus_monopoly::actions::handle_pay_rent(&mut game, "a").err(), Some(GameError::NotAProperty));
    game.players[0].position = 1;
    assert_eq!(campus_monopoly::actions::handle_pay_rent(&mut game, "a").err(), Some(GameError::PropertyNotOwned));
    give(&mut game, 1, "a");
    assert_eq!(campus_monopoly::actions::handle_pay_rent(&mut game, "a").err(), Some(GameError::OwnProperty));
    assert_eq!(campus_monopoly::actions::handle_pay_rent(&mut game, "b").err(), Some(GameError::NotYourTurn));
}

#[test]
fn even_building_and_bank_inventory() {
    let mut game = two_players();
    assert_eq!(game.handle_buy_building("a".to_string(), 1).unwrap_err().message(), "Invalid phase. Expected EndTurn, got Rolling");
    game.phase = GamePhase::EndTurn;
    give(&mut game, 1, "a");
    assert_eq!(game.handle_buy_building("a".to_string(), 1).unwrap_err(), GameError::NoMonopoly);
    give(&mut game, 3, "a");
    assert_eq!(game.handle_buy_building("b".to_string(), 1).unwrap_err(), GameError::NotYourTurn);
    give(&mut game, 6, "b");
    assert_eq!(game.handle_buy_building("a".to_string(), 6).unwrap_err(), GameError::NotOwner);
    assert_eq!(game.handle_buy_building("a".to_string(), 30).unwrap_err(), GameError::PropertyNotFound);
    assert!(game.handle_buy_building("a".to_string(), 1).is_ok());
    let k1 = slot_of(&game, 1);
    let k3 = slot_of(&game, 3);
    assert_eq!(game.properties[k1].houses, 1);
    assert_eq!(game.total_houses, 31);
    assert_eq!(game.players[0].money, 950_000);
    assert_eq!(game.handle_buy_building("a".to_string(), 1).unwrap_err(), GameError::BuildUnevenly);
    assert!(game.handle_buy_building("a".to_string(), 3).is_ok());
    assert!(game.handle_buy_building("a".to_string(), 1).is_ok());
    assert_eq!(game.properties[k1].houses, 2);
    assert_eq!(game.total_houses, 29);
    assert_eq!(game.players[0].money, 850_000);
    assert_eq!(game.handle_sell_building("a".to_string(), 3).unwrap_err(), GameError::SellUnevenly);
    assert_eq!(game.handle_sell_building("a".to_string(), 1).map(|_| ()), Ok(()));
    assert_eq!(game.players[0].money, 875_000);
    assert_eq!(game.total_houses, 30);
    assert!(game.handle_sell_building("a".to_string(), 1).is_ok());
    assert!(game.handle_sell_building("a".to_string(), 3).is_ok());
    assert_eq!(game.handle_sell_building("a".to_string(), 3).unwrap_err(), GameError::NoBuildings);
    assert_eq!(game.total_houses, 32);

    game.properties[k1].houses = 4;
    game.properties[k3].houses = 4;
    game.total_houses = 24;
    assert!(game.handle_buy_building("a".to_string(), 1).is_ok());
    assert_eq!(game.properties[k1].houses, 5);
    assert_eq!(game.total_houses, 28);
    assert_eq!(game.total_hotels, 11);
    assert_eq!(game.handle_buy_building("a".to_string(), 1).unwrap_err(), GameError::MaxLevel);
    game.total_houses = 3;
    assert_eq!(game.handle_sell_building("a".to_string(), 1).unwrap_err(), GameError::NoHousesForDowngrade);
    game.total_houses = 28;
    assert!(game.handle_sell_building("a".to_string(), 1).is_ok());
    assert_eq!(game.properties[k1].houses, 4);
    assert_eq!(game.total_houses, 24);
    assert_eq!(game.total_hotels, 12);

    game.total_hotels = 0;
    game.properties[k1].houses = 4;
    assert_eq!(game.handle_buy_building("a".to_string(), 1).unwrap_err(), GameError::NoHotelsLeft);

    give(&mut game, 5, "a");
    assert_eq!(game.handle_buy_building("a".to_string(), 5).unwrap_err(), GameError::CannotBuildHere);
}

#[test]
fn mortgage_round_trip() {
    let mut game = two_players();
    game.phase = GamePhase::EndTurn;
    give(&mut game, 1, "a");
    assert!(game.handle_mortgage_property("a".to_string(), 1).is_ok());
    assert_eq!(game.players[0].money, 1_030_000);
    assert_eq!(game.handle_mortgage_property("a".to_string(), 1).unwrap_err(), GameError::AlreadyMortgaged);
    assert!(game.handle_unmortgage_property("a".to_string(), 1).is_ok());
    assert_eq!(game.players[0].money, 997_000);
    assert_eq!(game.handle_unmortgage_property("a".to_string(), 1).unwrap_err(), GameError::NotMortgaged);
    let k = slot_of(&game, 1);
    game.properties[k].houses = 1;
    game.total_houses = 31;
    assert_eq!(game.handle_mortgage_property("a".to_string(), 1).unwrap_err(), GameError::HasBuildings);
}

#[test]
fn trade_rules() {
    let mut game = two_players();
    give(&mut game, 5, "a");
    let none = || TradeOffer { money: 0, property_ids: vec![] };
    assert_eq!(game.handle_propose_trade("x".into(), "b".into(), none(), none()).unwrap_err(), GameError::InitiatorNotFound);
    assert_eq!(game.handle_propose_trade("a".into(), "x".into(), none(), none()).unwrap_err(), GameError::TargetNotFound);
    assert_eq!(game.handle_propose_trade("a".into(), "a".into(), none(), none()).unwrap_err(), GameError::SelfTrade);
    let neg = TradeOffer { money: -1, property_ids: vec![] };
    assert_eq!(game.handle_propose_trade("a".into(), "b".into(), neg, none()).unwrap_err(), GameError::InvalidAmount);
    let rich = TradeOffer { money: 2_000_000, property_ids: vec![] };
    assert_eq!(game.handle_propose_trade("a".into(), "b".into(), rich, none()).unwrap_err(), GameError::OfferExceedsCash);
    let bad = TradeOffer { money: 0, property_ids: vec![42] };
    let err = game.handle_propose_trade("a".into(), "b".into(), bad, none()).unwrap_err();
    assert_eq!(err, GameError::UnknownProperty(42));
    assert_eq!(err.message(), "Property 42 not found");
    let not_mine = TradeOffer { money: 0, property_ids: vec![15] };
    let err = game.handle_propose_trade("a".into(), "b".into(), not_mine, none()).unwrap_err();
    assert_eq!(err.message(), "You do not own property 15");
    let not_theirs = TradeOffer { money: 0, property_ids: vec![5] };
    assert_eq!(game.handle_propose_trade("a".into(), "b".into(), none(), not_theirs).unwrap_err(), GameError::RequestedNotOwned(5));

    let offer = TradeOffer { money: 0, property_ids: vec![5] };
    game.handle_propose_trade("a".into(), "b".into(), offer.clone(), none()).unwrap();
    game.handle_propose_trade("a".into(), "b".into(), offer, none()).unwrap();
    assert_eq!(game.active_trades.len(), 2);
    let first = game.active_trades[0].id.clone();
    let second = game.active_trades[1].id.clone();
    assert!(!first.is_empty());
    assert_ne!(first, second);

    assert_eq!(game.handle_accept_trade("nope".into(), "b".into()).unwrap_err(), GameError::TradeNotFound);
    assert_eq!(game.handle_accept_trade(first.clone(), "a".into()).unwrap_err(), GameError::NotTradeTarget);
    assert_eq!(game.handle_reject_trade(first.clone(), "a".into()).unwrap_err(), GameError::NotTradeTarget);
    assert_eq!(game.handle_cancel_trade(first.clone(), "b".into()).unwrap_err(), GameError::NotTradeInitiator);
    assert!(game.handle_reject_trade(first, "b".into()).is_ok());
    let k = slot_of(&game, 5);
    game.properties[k].owner_id = Some("b".to_string());
    assert_eq!(game.handle_accept_trade(second.clone(), "b".into()).unwrap_err(), GameError::InitiatorLostProperty);
    assert!(game.handle_cancel_trade(second, "a".into()).is_ok());
    assert!(game.active_trades.is_empty());
}

#[test]
fn bankruptcy_to_a_creditor_and_turn_order() {
    let mut game = GameState::new();
    for id in ["a", "b", "c"] {
        game.players.push(player(id, 100_000, 0));
    }
    give(&mut game, 1, "b");
    let k = slot_of(&game, 1);
    game.properties[k].houses = 1;
    game.total_houses = 31;
    game.current_turn = 1;
    game.phase = GamePhase::EndTurn;
    game.handle_bankruptcy("b", Some("c"));
    assert_eq!(game.properties[k].owner_id, Some("c".to_string()));
    assert_eq!(game.properties[k].houses, 1);
    assert_eq!(game.players.len(), 2);
    assert_eq!(game.players[game.current_turn].id, "c");
    assert_eq!(game.phase, GamePhase::Rolling);

    game.remove_player("a");
    assert_eq!(game.players.len(), 1);
    assert_eq!(game.current_turn, 0);
    assert_eq!(game.phase, GamePhase::GameOver);
    assert_eq!(game.winner, Some("c".to_string()));

    let before = game.players.len();
    game.remove_player("ghost");
    assert_eq!(game.players.len(), before);
}

#[test]
fn removed_player_owns_nothing() {
    let mut game = GameState::new();
    for id in ["a", "b", "c"] {
        game.players.push(player(id, 100_000, 0));
    }
    give(&mut game, 39, "a");
    give(&mut game, 37, "b");
    game.current_turn = 2;
    game.remove_player("a");
    assert!(game.properties.iter().all(|p| p.owner_id.as_deref() != Some("a")));
    assert_eq!(game.properties[slot_of(&game, 37)].owner_id, Some("b".to_string()));
    assert_eq!(game.current_turn, 1);
    assert_eq!(game.players[game.current_turn].id, "c");
}

#[test]
fn kick_vote_arithmetic() {
    assert_eq!(votes_required(4), 3);
    assert_eq!(votes_required(5), 3);
    assert_eq!(votes_required(0), 1);
    assert_eq!(vote_outcome(3, 0, 5), VoteOutcome::Kick);
    assert_eq!(vote_outcome(2, 0, 5), VoteOutcome::Pending);
    assert_eq!(vote_outcome(1, 2, 5), VoteOutcome::Fail);
    assert_eq!(vote_outcome(0, 0, 1), VoteOutcome::Fail);
}

#[test]
fn start_game_seeds_players() {
    let members = vec![
        Player { id: "ana".to_string(), name: "One".to_string() },
        Player { id: "ben".to_string(), name: "Two".to_string() },
        Player { id: "cy".to_string(), name: "Three".to_string() },
        Player { id: "dee".to_string(), name: "Four".to_string() },
        Player { id: "eve".to_string(), name: "Five".to_string() },
    ];
    let game = GameState::start_game(&members).unwrap();
    assert_eq!(game.phase, GamePhase::Rolling);
    assert_eq!(game.players.len(), 5);
    let colours: Vec<&str> = game.players.iter().map(|p| p.color.as_str()).collect();
    assert_eq!(colours, vec!["red", "blue", "green", "yellow", "red"]);
    assert!(game.players.iter().all(|p| p.money == 1_500_000 && p.position == 0));
    assert_eq!(game.players[1].name, "Two");

    let twice = vec![members[0].clone(), members[0].clone()];
    assert_eq!(GameState::start_game(&twice).err(), Some(GameError::DuplicatePlayer));
}

#[test]
fn command_routing() {
    let mut game = two_players();
    game.phase = GamePhase::EndTurn;
    assert!(game.handle_command("a", ClientMessage::StartGame).is_none());
    let r = game.handle_command("b", ClientMessage::EndTurn).unwrap();
    assert_eq!(r.unwrap_err(), GameError::NotYourTurn);
    assert_eq!(game.current_turn, 0);
    assert!(game.handle_command("a", ClientMessage::EndTurn).unwrap().is_ok());
    assert_eq!(game.current_turn, 1);
    assert_eq!(game.phase, GamePhase::Rolling);

    let mut game = two_players();
    game.players[0].money = 10_000;
    game.players[0].position = 5;
    give(&mut game, 5, "b");
    game.phase = GamePhase::EndTurn;
    assert!(game.handle_command("a", ClientMessage::PayRent).unwrap().is_ok());
    assert_eq!(game.players.len(), 1);
    assert_eq!(game.winner, Some("b".to_string()));
}

#[test]
fn cash_bounds_check() {
    let mut game = two_players();
    assert!(game.check_cash_in_range());
    game.players[1].money = 1_500_000_000;
    assert!(!game.check_cash_in_range());
}

#[test]
fn error_messages() {
    let e = GameError::InvalidPhase { expected: GamePhase::EndTurn, actual: GamePhase::Rolling };
    assert_eq!(e.message(), "Invalid phase. Expected EndTurn, got Rolling");
    assert_eq!(GameError::NotYourTurn.message(), "Not your turn");
    assert_eq!(GameError::RequestedNotOwned(7).message(), "Target does not own property 7");
}

#[test]
fn decks_are_shuffled_out_of_printed_order() {
    let printed: Vec<u8> = (1..=16).collect();
    let mut reordered = false;
    for _ in 0..10 {
        let game = GameState::new();
        let chance: Vec<u8> = game.chance_deck.iter().map(|c| c.id).collect();
        let chest: Vec<u8> = game.community_chest_deck.iter().map(|c| c.id).collect();
        if chance != printed || chest != printed {
            reordered = true;
        }
    }
    assert!(reordered);
}

#[test]
fn landing_events_for_tax_and_ownable_tiles() {
    let mut game = two_players();
    game.players[0].position = 4;
    assert!(game.handle_landing(0).is_empty());
    assert_eq!(game.players[0].money, 800_000);
    game.players[0].position = 1;
    let before = game.players[0].money;
    assert!(game.handle_landing(0).is_empty());
    assert_eq!(game.players[0].money, before);
    game.players[0].position = 30;
    let events = game.handle_landing(0);
    assert_eq!(events.len(), 1);
    assert!(matches!(&events[0], campus_monopoly::messages::ServerMessage::JailStateUpdated { is_in_jail: true, jail_turns: 0, .. }));
}

#[test]
fn closing_a_trade_reports_its_id() {
    let mut game = two_players();
    let none = || TradeOffer { money: 0, property_ids: vec![] };
    game.handle_propose_trade("a".into(), "b".into(), none(), none()).unwrap();
    game.handle_propose_trade("a".into(), "b".into(), none(), none()).unwrap();
    let first = game.active_trades[0].id.clone();
    let second = game.active_trades[1].id.clone();
    let events = game.handle_reject_trade(first.clone(), "b".into()).unwrap();
    assert_eq!(events.len(), 1);
    assert!(matches!(&events[0], campus_monopoly::messages::ServerMessage::TradeRejected { trade_id } if *trade_id == first));
    let events = game.handle_cancel_trade(second.clone(), "a".into()).unwrap();
    assert_eq!(events.len(), 1);
    assert!(matches!(&events[0], campus_monopoly::messages::ServerMessage::TradeCancelled { trade_id } if *trade_id == second));
}

#[test]
fn unaffordable_rent_command_hands_properties_to_owner() {
    let mut game = GameState::new();
    for id in ["a", "b", "c"] {
        game.players.push(player(id, 1_000_000, 0));
    }
    game.players[0].money = 10_000;
    game.players[0].position = 5;
    give(&mut game, 5, "b");
    give(&mut game, 39, "a");
    game.phase = GamePhase::EndTurn;
    assert!(game.handle_command("a", ClientMessage::PayRent).unwrap().is_ok());
    assert_eq!(game.properties[slot_of(&game, 39)].owner_id, Some("b".to_string()));
    assert_eq!(game.players.len(), 2);
    assert!(game.players.iter().all(|p| p.id != "a"));
}

#[test]
fn deck_titles_in_printed_order() {
    let deck = campus_monopoly::cards::create_chance_deck();
    assert_eq!(deck[10].title, "Renovasi Kosan");
    assert_eq!(deck[10].effect, CardEffect::Repair { per_house: 25_000, per_hotel: 100_000 });
    let chest = campus_monopoly::cards::create_community_chest_deck();
    assert_eq!(chest[15].title, "Perbaikan Gedung Fakultas");
}

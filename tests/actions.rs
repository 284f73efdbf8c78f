use campus_monopoly::actions::handle_buy_property;
use campus_monopoly::state::{GamePhase, GameState, PlayerState};

fn player(id: &str, name: &str, money: i32, position: usize, color: &str) -> PlayerState {
    PlayerState {
        id: id.to_string(),
        name: name.to_string(),
        money,
        position,
        color: color.to_string(),
        is_in_jail: false,
        jail_turns: 0,
        doubles_count: 0,
        held_cards: Vec::new(),
    }
}

#[test]
fn test_buy_property_success() {
    let mut game = GameState::new();
    game.players.push(player("player1", "Test Player", 100_000, 1, "red"));
    game.phase = GamePhase::EndTurn;

    assert!(game.properties.iter().find(|p| p.id == 1).unwrap().owner_id.is_none());

    let result = handle_buy_property(&mut game, "player1");
    assert!(result.is_ok());

    let prop = game.properties.iter().find(|p| p.id == 1).unwrap();
    assert_eq!(prop.owner_id, Some("player1".to_string()));

    let player = game.players.iter().find(|p| p.id == "player1").unwrap();
    assert_eq!(player.money, 40_000);
}

#[test]
fn test_buy_property_insufficient_funds() {
    let mut game = GameState::new();
    game.players.push(player("player1", "Test Player", 10_000, 1, "red"));
    game.phase = GamePhase::EndTurn;

    let result = handle_buy_property(&mut game, "player1");
    assert_eq!(result.map_err(|e| e.message()), Err("Insufficient funds".to_string()));
}

#[test]
fn test_buy_property_already_owned() {
    let mut game = GameState::new();
    game.players.push(player("player1", "Player 1", 100_000, 1, "red"));
    game.players.push(player("player2", "Player 2", 100_000, 1, "blue"));
    game.phase = GamePhase::EndTurn;

    assert!(handle_buy_property(&mut game, "player1").is_ok());

    game.current_turn = 1;
    game.phase = GamePhase::EndTurn;

    let result = handle_buy_property(&mut game, "player2");
    assert_eq!(result.map_err(|e| e.message()), Err("Property already owned".to_string()));
}

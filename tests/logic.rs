use campus_monopoly::state::{GamePhase, GameState, PlayerState};

fn create_test_game() -> GameState {
    let mut game = GameState::new();
    for (id, name, color) in [("player1", "Player 1", "red"), ("player2", "Player 2", "blue")] {
        game.players.push(PlayerState {
            id: id.to_string(),
            name: name.to_string(),
            money: 1500000,
            position: 0,
            color: color.to_string(),
            is_in_jail: false,
            jail_turns: 0,
            doubles_count: 0,
            held_cards: Vec::new(),
        });
    }
    game.current_turn = 0;
    game.phase = GamePhase::Rolling;
    game
}

#[test]
fn test_handle_roll_success() {
    let mut game = create_test_game();
    assert_eq!(game.current_turn, 0);
    assert_eq!(game.phase, GamePhase::Rolling);

    let result = game.handle_roll("player1");
    assert!(result.is_ok());
}

#[test]
fn test_handle_roll_wrong_turn() {
    let mut game = create_test_game();
    let result = game.handle_roll("player2");
    assert!(result.is_err());
    assert_eq!(result.unwrap_err().message(), "Not your turn");
}

#[test]
fn test_handle_roll_wrong_phase() {
    let mut game = create_test_game();
    game.phase = GamePhase::EndTurn;
    let result = game.handle_roll("player1");
    assert!(result.is_err());
    assert!(result.unwrap_err().message().contains("Invalid phase"));
}

#[test]
fn test_next_turn_success() {
    let mut game = create_test_game();
    game.phase = GamePhase::EndTurn;

    let result = game.next_turn("player1");
    assert!(result.is_ok());
    assert_eq!(game.current_turn, 1);
    assert_eq!(game.phase, GamePhase::Rolling);
}

#[test]
fn test_next_turn_wrong_turn() {
    let mut game = create_test_game();
    game.phase = GamePhase::EndTurn;

    let result = game.next_turn("player2");
    assert!(result.is_err());
    assert_eq!(result.unwrap_err().message(), "Not your turn");
}

#[test]
fn test_next_turn_wrong_phase() {
    let mut game = create_test_game();
    game.phase = GamePhase::Rolling;

    let result = game.next_turn("player1");
    assert!(result.is_err());
    assert!(result.unwrap_err().message().contains("Invalid phase"));
}

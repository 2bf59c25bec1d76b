use pebbles_game::{DifficultyLevel, GameState, PebblesEvent, Player};

#[test]
fn test_turn_valid_move() {
    let mut game_state = GameState {
        difficulty: DifficultyLevel::Easy,
        pebbles_count: 10,
        max_pebbles_per_turn: 3,
        pebbles_remaining: 10,
        first_player: Player::User,
        winner: None,
    };

    let event = game_state.turn(2);
    // The user takes 2 and the program takes 1.
    assert_eq!(game_state.pebbles_remaining, 7);
    assert_eq!(event, PebblesEvent::CounterTurn(1));
}

#[test]
fn test_turn_invalid_move() {
    let mut game_state = GameState {
        difficulty: DifficultyLevel::Easy,
        pebbles_count: 10,
        max_pebbles_per_turn: 3,
        pebbles_remaining: 10,
        first_player: Player::User,
        winner: None,
    };

    let event = game_state.turn(5);
    assert_eq!(game_state.pebbles_remaining, 10);
    assert_eq!(event, PebblesEvent::CounterTurn(0));
}

#[test]
fn test_turn_user_wins() {
    let mut game_state = GameState {
        difficulty: DifficultyLevel::Easy,
        pebbles_count: 2,
        max_pebbles_per_turn: 1,
        pebbles_remaining: 2,
        first_player: Player::User,
        winner: None,
    };

    // Two pebbles exceed the limit of one per turn: nothing happens.
    let event = game_state.turn(2);
    assert_eq!(game_state.pebbles_remaining, 2);
    assert_eq!(game_state.winner, None);
    assert_eq!(event, PebblesEvent::CounterTurn(0));
}

#[test]
fn test_turn_program_wins() {
    let mut game_state = GameState {
        difficulty: DifficultyLevel::Easy,
        pebbles_count: 3,
        max_pebbles_per_turn: 1,
        pebbles_remaining: 3,
        first_player: Player::User,
        winner: None,
    };

    // Two pebbles exceed the limit of one per turn: nothing happens.
    let event = game_state.turn(2);
    assert_eq!(game_state.pebbles_remaining, 3);
    assert_eq!(game_state.winner, None);
    assert_eq!(event, PebblesEvent::CounterTurn(0));
}

#[test]
fn test_give_up() {
    let mut game_state = GameState {
        difficulty: DifficultyLevel::Easy,
        pebbles_count: 10,
        max_pebbles_per_turn: 3,
        pebbles_remaining: 10,
        first_player: Player::User,
        winner: None,
    };

    let event = game_state.give_up();
    assert_eq!(game_state.winner, Some(Player::Program));
    assert_eq!(event, PebblesEvent::Won(Player::Program));
}

#[test]
fn test_restart() {
    let mut game_state = GameState {
        difficulty: DifficultyLevel::Easy,
        pebbles_count: 10,
        max_pebbles_per_turn: 3,
        pebbles_remaining: 10,
        first_player: Player::User,
        winner: Some(Player::Program),
    };

    let event = game_state.restart(DifficultyLevel::Hard, 15, 4);
    assert_eq!(game_state.difficulty, DifficultyLevel::Hard);
    assert_eq!(game_state.pebbles_count, 15);
    assert_eq!(game_state.max_pebbles_per_turn, 4);
    assert_eq!(game_state.pebbles_remaining, 15);
    assert_eq!(game_state.first_player, Player::User);
    assert_eq!(game_state.winner, None);
    assert_eq!(event, PebblesEvent::CounterTurn(0));
}

//! The program's entry points as plain functions of the game state: the
//! host loads each message, calls one of these, and sends back the result.

use vstd::prelude::*;

use crate::io::{GameState, PebblesAction, PebblesEvent, PebblesInit, Player};

verus! {

/// The side that moves first for a given random number: the user on an even
/// number, the program on an odd one.
pub open spec fn first_player_for(random: u32) -> Player {
    if random % 2 == 0 {
        Player::User
    } else {
        Player::Program
    }
}

/// The state and event after `action` is applied to `game`.
pub open spec fn after_action(game: GameState, action: PebblesAction) -> (GameState, PebblesEvent) {
    match action {
        PebblesAction::Turn(amount) => game.after_turn(amount),
        PebblesAction::GiveUp => (
            GameState { winner: Some(Player::Program), ..game },
            PebblesEvent::Won(Player::Program),
        ),
        PebblesAction::Restart { difficulty, pebbles_count, max_pebbles_per_turn } => (
            GameState {
                pebbles_count,
                max_pebbles_per_turn,
                pebbles_remaining: pebbles_count,
                difficulty,
                first_player: Player::User,
                winner: None,
            },
            PebblesEvent::CounterTurn(0),
        ),
    }
}

/// Builds the first state of a game from its configuration and a random
/// number that decides who moves first.
pub fn init(config: PebblesInit, random: u32) -> (game: GameState)
    ensures
        game == (GameState {
            pebbles_count: config.pebbles_count,
            max_pebbles_per_turn: config.max_pebbles_per_turn,
            pebbles_remaining: config.pebbles_count,
            difficulty: config.difficulty,
            first_player: first_player_for(random),
            winner: None,
        }),
        config.pebbles_count > 0 && config.max_pebbles_per_turn > 0 ==> game.wf(),
{
    let first_player = if random % 2 == 0 {
        Player::User
    } else {
        Player::Program
    };
    GameState {
        pebbles_count: config.pebbles_count,
        max_pebbles_per_turn: config.max_pebbles_per_turn,
        pebbles_remaining: config.pebbles_count,
        difficulty: config.difficulty,
        first_player,
        winner: None,
    }
}

/// Applies one action to the game and returns the event to send back.
pub fn handle(game: &mut GameState, action: PebblesAction) -> (event: PebblesEvent)
    ensures
        (*final(game), event) == after_action(*old(game), action),
        old(game).wf() && (action matches PebblesAction::Restart { pebbles_count, max_pebbles_per_turn, .. }
            ==> pebbles_count > 0 && max_pebbles_per_turn > 0) ==> final(game).wf(),
{
    match action {
        PebblesAction::Turn(amount) => game.turn(amount),
        PebblesAction::Restart { difficulty, pebbles_count, max_pebbles_per_turn } => {
            game.restart(difficulty, pebbles_count, max_pebbles_per_turn)
        },
        PebblesAction::GiveUp => game.give_up(),
    }
}

/// A copy of the game state for observers; the game itself is left as it is.
pub fn state(game: &GameState) -> (snapshot: GameState)
    ensures
        snapshot == *game,
{
    GameState {
        pebbles_count: game.pebbles_count,
        max_pebbles_per_turn: game.max_pebbles_per_turn,
        pebbles_remaining: game.pebbles_remaining,
        difficulty: game.difficulty,
        first_player: game.first_player,
        winner: game.winner,
    }
}

} // verus!

//! The game's data: its configuration, actions, events and state, and the
//! three operations on the state.

use vstd::prelude::*;

use crate::strategy::{program_move, program_take};

verus! {

/// How the computer opponent plays.
#[derive(Clone, Copy, Debug, PartialEq, Eq)]
pub enum DifficultyLevel {
    Easy,
    Hard,
}

/// Which side takes a turn or has won.
#[derive(Clone, Copy, Debug, PartialEq, Eq)]
pub enum Player {
    User,
    Program,
}

/// The configuration a game starts from.
#[derive(Clone, Copy, Debug, PartialEq, Eq)]
pub struct PebblesInit {
    pub difficulty: DifficultyLevel,
    pub pebbles_count: u32,
    pub max_pebbles_per_turn: u32,
}

/// A request made to the game.
#[derive(Clone, Copy, Debug, PartialEq, Eq)]
pub enum PebblesAction {
    /// The user removes this many pebbles.
    Turn(u32),
    /// The user concedes.
    GiveUp,
    /// A new game starts with this configuration.
    Restart { difficulty: DifficultyLevel, pebbles_count: u32, max_pebbles_per_turn: u32 },
}

/// What the game answers to an action.
#[derive(Clone, Copy, Debug, PartialEq, Eq)]
pub enum PebblesEvent {
    /// The game goes on; the program took this many pebbles (zero when the
    /// action moved no pebble).
    CounterTurn(u32),
    /// The game is over and this side has won.
    Won(Player),
}

/// The state of one game.
#[derive(Clone, Copy, Debug, PartialEq, Eq)]
pub struct GameState {
    /// The size of the pile when the game started.
    pub pebbles_count: u32,
    /// The most pebbles one turn may remove.
    pub max_pebbles_per_turn: u32,
    /// The pebbles still in the pile.
    pub pebbles_remaining: u32,
    pub difficulty: DifficultyLevel,
    /// The side drawn to start the game. It is recorded only: every turn is
    /// the user's move followed by the program's reply.
    pub first_player: Player,
    /// Set once a side has won.
    pub winner: Option<Player>,
}

impl GameState {
    /// The pile never grows past its starting size, a turn may remove at
    /// least one pebble, and an empty pile has a winner.
    pub open spec fn wf(self) -> bool {
        &&& self.pebbles_remaining <= self.pebbles_count
        &&& self.max_pebbles_per_turn >= 1
        &&& self.pebbles_remaining == 0 ==> self.winner is Some
    }

    /// Whether `amount` lies within the per-turn limits `1..=max_pebbles_per_turn`.
    pub open spec fn within_limits(self, amount: u32) -> bool {
        1 <= amount <= self.max_pebbles_per_turn
    }

    /// A user may remove between one and `max_pebbles_per_turn` pebbles, and
    /// no more than the pile holds.
    pub open spec fn is_valid_amount(self, amount: u32) -> bool {
        self.within_limits(amount) && amount <= self.pebbles_remaining
    }

    /// The state and event after the user asks to remove `amount` pebbles:
    /// an invalid amount changes nothing; otherwise the user's pebbles go,
    /// and, unless the pile is then empty, the program takes its share.
    /// Whoever empties the pile wins.
    pub open spec fn after_turn(self, amount: u32) -> (GameState, PebblesEvent) {
        if !self.is_valid_amount(amount) {
            (self, PebblesEvent::CounterTurn(0))
        } else if amount == self.pebbles_remaining {
            (
                GameState { pebbles_remaining: 0, winner: Some(Player::User), ..self },
                PebblesEvent::Won(Player::User),
            )
        } else {
            let left = (self.pebbles_remaining - amount) as nat;
            let taken = program_take(self.difficulty, left, self.max_pebbles_per_turn as nat);
            if taken >= left {
                (
                    GameState { pebbles_remaining: 0, winner: Some(Player::Program), ..self },
                    PebblesEvent::Won(Player::Program),
                )
            } else {
                (
                    GameState { pebbles_remaining: (left - taken) as u32, ..self },
                    PebblesEvent::CounterTurn(taken as u32),
                )
            }
        }
    }

    /// One round: the user removes `amount` pebbles, then, if the pile is not
    /// empty, the program removes its share. An amount outside
    /// `1..=max_pebbles_per_turn`, or larger than the pile, is ignored and
    /// answered with `CounterTurn(0)`.
    pub fn turn(&mut self, amount: u32) -> (event: PebblesEvent)
        ensures
            (*final(self), event) == old(self).after_turn(amount),
            old(self).wf() ==> final(self).wf(),
            final(self).pebbles_remaining <= old(self).pebbles_remaining,
            !old(self).within_limits(amount) ==> *final(self) == *old(self) && event
                == PebblesEvent::CounterTurn(0),
            amount > old(self).pebbles_remaining ==> *final(self) == *old(self) && event
                == PebblesEvent::CounterTurn(0),
            old(self).is_valid_amount(amount) && amount < old(self).pebbles_remaining
                ==> final(self).pebbles_remaining <= old(self).pebbles_remaining - amount
                && final(self).pebbles_remaining < old(self).pebbles_remaining,
            old(self).is_valid_amount(amount) && amount == old(self).pebbles_remaining ==> {
                &&& final(self).pebbles_remaining == 0
                &&& final(self).winner == Some(Player::User)
                &&& event == PebblesEvent::Won(Player::User)
            },
            old(self).is_valid_amount(amount) && amount < old(self).pebbles_remaining
                && final(self).pebbles_remaining == 0 ==> {
                &&& final(self).winner == Some(Player::Program)
                &&& event == PebblesEvent::Won(Player::Program)
            },
    {
        if amount < 1 || amount > self.max_pebbles_per_turn || amount > self.pebbles_remaining {
            return PebblesEvent::CounterTurn(0);
        }
        self.pebbles_remaining = self.pebbles_remaining - amount;
        if self.pebbles_remaining == 0 {
            self.winner = Some(Player::User);
            return PebblesEvent::Won(Player::User);
        }
        let taken = program_move(self.difficulty, self.pebbles_remaining, self.max_pebbles_per_turn);
        self.pebbles_remaining = self.pebbles_remaining - taken;
        if self.pebbles_remaining == 0 {
            self.winner = Some(Player::Program);
            PebblesEvent::Won(Player::Program)
        } else {
            PebblesEvent::CounterTurn(taken)
        }
    }

    /// The user concedes: the program wins, whatever the pile holds.
    pub fn give_up(&mut self) -> (event: PebblesEvent)
        ensures
            *final(self) == (GameState { winner: Some(Player::Program), ..*old(self) }),
            event == PebblesEvent::Won(Player::Program),
            old(self).wf() ==> final(self).wf(),
    {
        self.winner = Some(Player::Program);
        PebblesEvent::Won(Player::Program)
    }

    /// Starts a new game with the given configuration: a full pile, no
    /// winner, and the user to move first.
    pub fn restart(
        &mut self,
        difficulty: DifficultyLevel,
        pebbles_count: u32,
        max_pebbles_per_turn: u32,
    ) -> (event: PebblesEvent)
        ensures
            *final(self) == (GameState {
                pebbles_count,
                max_pebbles_per_turn,
                pebbles_remaining: pebbles_count,
                difficulty,
                first_player: Player::User,
                winner: None,
            }),
            event == PebblesEvent::CounterTurn(0),
            pebbles_count > 0 && max_pebbles_per_turn > 0 ==> final(self).wf(),
    {
        self.difficulty = difficulty;
        self.pebbles_count = pebbles_count;
        self.max_pebbles_per_turn = max_pebbles_per_turn;
        self.pebbles_remaining = pebbles_count;
        self.first_player = Player::User;
        self.winner = None;
        PebblesEvent::CounterTurn(0)
    }
}

} // verus!

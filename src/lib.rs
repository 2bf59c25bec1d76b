//! A two-player pebble-removal game: a user and a computer opponent take
//! turns removing pebbles from one pile, and whoever takes the last one wins.

pub mod io;
pub mod program;
pub mod strategy;

pub use io::{DifficultyLevel, GameState, PebblesAction, PebblesEvent, PebblesInit, Player};
pub use program::{handle, init, state};


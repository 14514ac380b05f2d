//! A minimal two-player turn-based grid game engine.
//!
//! Players move on a square board, collect attack-bonus and skill tiles,
//! and the game ends when both players are stuck or collide. The crate
//! holds the state model, the board generator, the legal-move engine,
//! the transition function and the terminal evaluator; the interactive
//! driver around them is not part of the library.

pub mod action;
pub mod result_function;
pub mod state_repr;
pub mod terminal;
pub mod utils;

//! A Tic-Tac-Toe rules engine with an exhaustive minimax opponent.
//!
//! Board cells are indexed row by row:
//!
//! ```text
//!  0 | 1 | 2
//! ---|---|---
//!  3 | 4 | 5
//! ---|---|---
//!  6 | 7 | 8
//! ```
mod types;
pub mod rules;
mod game_engine;
pub mod search;

pub use game_engine::GameEngine;
pub use types::{Cell, GameState, MoveError, Player};

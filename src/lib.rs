//! A small, safe tic-tac-toe engine: a 3×3 board, strict turn order, move
//! validation and win / draw detection, all with verified contracts.

pub mod types;
pub mod board;
pub mod game;
pub mod notation;

pub use types::{FieldName, FieldState, Hor, Side, State, Vert};
pub use board::Board;
pub use game::Game;

//! A chess rules engine: board state, move generation per piece, own-king
//! safety when moving, and a small game-state machine.

pub mod game;
pub mod laws;
pub mod notation;
pub mod piece;
pub mod render;
pub mod rules;

pub use game::Game;
pub use notation::{an_to_index, index_to_an};
pub use piece::{Color, GameState, MoveError, Piece, PieceType};

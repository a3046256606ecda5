pub mod board;
pub mod laws;
pub mod notation;
pub mod piece;
pub mod rules;

pub use board::BoardState;
pub use piece::{CurrentPlayer, Piece};
pub use rules::MoveError;

//! A tic-tac-toe rules engine: a 3x3 board of cells, move legality, the
//! automated opponent's move, and the derived game outcome.

pub mod error;
pub mod player;
pub mod tile;
pub mod board;

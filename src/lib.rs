//! A 3x3 tic-tac-toe board: validated positions, cells that can be claimed
//! once, and the text layout of the grid.
pub mod board;
pub mod text;
pub mod laws;
pub mod input;

pub use board::{Board, Opponent, OpponentSpot, Position, PositionTakenError, SetBoardResult};
pub use input::{read_move, reply_for, MoveInput, MoveReply, User};

//! Rules and state of a two-player game of tic-tac-toe on a 3x3 board.

pub mod board;
pub mod input;
pub mod laws;
pub mod render;
pub mod turn;

pub use board::{check_draw, check_win, Board};
pub use input::{parse_move_input, MoveInput};
pub use turn::{finish_turn, take_move_input, MoveStep, TurnOutcome};

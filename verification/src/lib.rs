//! A two-player tic-tac-toe engine: the board, the rule that decides a win,
//! the turn state machine, the mapping from key presses to cells and the
//! text that shows a board. Every function is verified against its contract.

pub mod board;
pub mod error;
pub mod game;
pub mod input;
pub mod player;
pub mod render;
pub mod win;

//! Rules engine for Chinese chess (xiangqi): the board, the movement rule of
//! each of the seven kinds of piece, turn alternation, and win detection by
//! capture of a general.
//!
//! - [`game`] holds the executable types and operations.
//! - [`position`] holds the mathematical position that a board stands for,
//!   and the rules of the game stated over it; the contracts in [`game`]
//!   refer to these.
//! - [`laws`] proves what follows from the rules for every position.

pub mod game;
pub mod laws;
pub mod position;

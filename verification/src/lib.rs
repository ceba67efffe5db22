//! A verified engine for two-player tic-tac-toe on a three-by-three grid.

pub mod board;
pub mod game;
pub mod input;
pub mod score;

//! Simulation core of a grid-based snake game on a toroidal board.

pub mod grid;
pub mod clock;
pub mod snake;
pub mod apple;
pub mod game;

//! Conway's Game of Life on a fixed-size board.
//!
//! The update rule itself is specified in [`rules`] as mathematical functions
//! on grids (`Seq<Seq<bool>>`); [`board`] holds the executable automaton,
//! whose contracts are stated against those functions.

pub mod board;
pub mod rules;

pub use board::BrokenGame;
pub use board::GameOfLife;
pub use board::Mine;

//! A verified Conway's Game of Life engine on a fixed-size toroidal grid.
//!
//! The grid stores one bit per cell in a `fixedbitset::FixedBitSet` and
//! advances a whole generation at a time, evaluating the birth/survival
//! rule for every cell against a snapshot of the current generation.

pub mod bitset;
pub mod universe;

pub use universe::Cell;
pub use universe::Universe;

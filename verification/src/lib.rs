//! A bounded-grid cellular automaton (Conway's Game of Life) with an
//! interactive cursor for manual cell editing.
//!
//! The engine owns a fixed-size grid of cells, a generation counter and a
//! cursor position. It offers stepping the simulation, randomizing and
//! clearing the grid, moving the cursor and toggling the cell under it.
//! Rendering and input handling are left to the caller.

pub mod engine;
pub mod laws;

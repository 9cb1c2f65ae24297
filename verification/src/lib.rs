//! Cellular-automaton driver for a 5x5 LED matrix: the automaton engine,
//! the debounce state machine, and the per-frame board controller.

pub mod controller;
pub mod life;
pub mod random;
pub mod status;

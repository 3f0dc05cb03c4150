//! A terminal-style cellular-automaton viewer core: Conway's Game of Life on a
//! square grid, with a scrollable viewport, pause/step control and a
//! fixed-interval simulation clock. The simulation rule, the viewport model,
//! the input-command state machine and the frame-loop timing discipline are
//! verified; terminal I/O lives outside this crate.

pub mod board;
pub mod input;
pub mod render;
mod rng;
pub mod state;

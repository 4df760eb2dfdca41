//! Core of a grid snake game: the snake body and its movement ticks, the
//! directional input rules, the three collision classes (food, wall, self),
//! the game-state machine that reacts to them, and random food placement.
//! Rendering, audio and windowing are left to a host program; this crate
//! exposes plain values (cells, events, states) for such a host to consume.
use vstd::prelude::*;

pub mod food;
pub mod game;
pub mod input;
pub mod score;
pub mod snake;

verus! {

/// Number of cells along each side of the square playable grid; valid cell
/// coordinates lie in `[0, CELL_COUNT)`, and the walls sit at `-1` and
/// `CELL_COUNT`.
pub const CELL_COUNT: i32 = 25;

} // verus!

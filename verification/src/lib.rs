//! A deterministic 2D flight-physics core: a player-controlled craft moving
//! through a bounded map under stylized gravity wells and line barriers.
//!
//! All simulation arithmetic is fixed-point (16 fractional bits) over `i64`,
//! saturating at a generous bound, so that a replay of the same inputs over
//! the same world is bit-identical on every machine.  Rendering and input
//! devices live outside this crate; the core consumes input intents and
//! produces the craft pose and the obstacle set.

pub mod fp;
pub mod trig;
pub mod vec2;
pub mod math;
pub mod obstacles;
pub mod state;
pub mod sim;
pub mod laws;

//! Simulation core of a small 2D arcade shooter, on integer coordinates.
//!
//! Each system of the game is a function from the frame's plain values (the
//! keys, the elapsed time, the viewport, the entities) to what the frame
//! changes: `input` fires and steers, `movement` moves the bullets, `spawn`
//! brings enemies in, and `collision` takes bullets and enemies out.

pub mod collision;
pub mod components;
pub mod geometry;
pub mod input;
pub mod movement;
pub mod resources;
pub mod spawn;

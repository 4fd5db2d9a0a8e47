//! A single-screen brick-breaking arcade game engine.
//!
//! The simulation works on a fixed-point grid: positions and sizes are
//! measured in thousandths of a pixel ("milli-pixels"), velocities in
//! milli-pixels per second, time in milliseconds, and colors in thousandths
//! of full intensity.  Every quantity is an integer, so each frame of the
//! simulation is exactly specified and proved: circle-versus-box collision
//! detection with directional resolution, per-frame motion with wall
//! bounces, brick destruction, paddle bounces that preserve the ball's
//! speed, and the life-loss/level-reset state machine.
//!
//! Rendering, window management and file access live outside this crate;
//! the engine exposes the per-frame draw list as plain data.

pub mod arith;
pub mod ball_object;
pub mod bounce;
pub mod collision;
pub mod game;
pub mod game_level;
pub mod game_object;

//! Frame-by-frame logic for two small arcade games: a shooting gallery in
//! which marbles are fired upward at cars crossing the screen, and a
//! lane-dodging racer. The game engine owns the window, the sprite and text
//! registries, input polling, collision detection and the frame loop; each
//! module here exposes a pure bookkeeping step that takes a snapshot of the
//! engine's registry plus the frame's input events and returns the commands
//! the engine should carry out.
//!
//! Positions are held in milli-pixels and durations in milliseconds, so every
//! quantity the logic reads or writes is an exact integer.

pub mod car_shoot;
pub mod car_shoot_basic;
pub mod road_race;
mod rng;

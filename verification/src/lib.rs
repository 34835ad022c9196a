//! Deterministic gravitational simulation and trajectory-forecasting engine
//! for a small space-flight game.
//!
//! A craft moves under the combined pull of a set of orbiting bodies; the
//! player plans discrete velocity changes ("burns") by previewing the
//! resulting path before committing fuel to it.  All simulation state is kept
//! in fixed-point arithmetic so that advancing the real game state and running
//! a speculative forecast are bit-identical for the same inputs.

pub mod arrow;
pub mod audio;
pub mod contracts;
pub mod death;
pub mod fixed;
pub mod fuel;
pub mod game;
pub mod intro;
pub mod localizator;
pub mod manouvers;
pub mod mouse_utils;
pub mod overflow_indicator;
pub mod particles;
pub mod planet;
pub mod planets;
pub mod player;
pub mod police;
pub mod selection;
pub mod ship;
pub mod sim;
pub mod text;
pub mod trig;
pub mod utils;
pub mod vec2;

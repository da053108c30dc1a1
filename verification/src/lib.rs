//! Time-sampled game-state controller.
//!
//! All visual and logical state of a small jump-and-run round (player and
//! enemy position, animation frame, collision/death status) is derived
//! purely from elapsed time since two event timestamps: the round start and
//! the last jump press. There is no per-frame simulation state; every query
//! is a pure function of "now" and the stored configuration.

pub mod game_controller;
pub mod laws;
pub mod math;
pub mod messages;
pub mod player_state;

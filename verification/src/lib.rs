//! Core simulation of a terminal "flappy" game: player physics, obstacle
//! gaps with a collision test, and the menu/playing/end state machine.
//! Rendering and input capture stay outside; each frame the state machine
//! consumes an input signal plus elapsed time and yields drawing commands.
use vstd::prelude::*;

pub mod game;
pub mod obstacle;
pub mod player;
pub mod render;
mod rng;

verus! {

/// Logical screen width in columns; also the distance by which a fresh
/// obstacle is placed ahead of the player.
pub const SCREEN_WIDTH: i32 = 80;

/// Logical screen height in rows; falling past this row ends the run.
pub const SCREEN_HEIGHT: i32 = 50;

/// Accumulated elapsed milliseconds needed before one simulation step runs.
pub const FRAME_DURATION_MS: u64 = 75;

/// Column the player starts a run at, in world coordinates.
pub const PLAYER_START_X: i32 = 5;

/// Row the player starts a run at.
pub const PLAYER_START_Y: i32 = 25;

/// Vertical velocity is kept in tenths of a row per step, so the whole
/// physics model stays in integers. Gravity adds this much each step.
pub const GRAVITY_TENTHS: i32 = 2;

/// Terminal (maximum downward) velocity, in tenths of a row per step.
pub const TERMINAL_VELOCITY_TENTHS: i32 = 20;

/// A flap resets the velocity to this upward value, in tenths.
pub const FLAP_VELOCITY_TENTHS: i32 = -20;

/// Lowest row the obstacle gap center may be drawn at (inclusive).
pub const GAP_ROW_MIN: i32 = 10;

/// One past the highest row the obstacle gap center may be drawn at.
pub const GAP_ROW_MAX: i32 = 40;

/// Total gap size at score zero; the gap shrinks one row per score point.
pub const BASE_GAP_SIZE: i32 = 20;

/// The gap never shrinks below this total size.
pub const MIN_GAP_SIZE: i32 = 2;

} // verus!

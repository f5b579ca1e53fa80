//! Core simulation of an arcade combat scene, in fixed-point arithmetic.
//!
//! Positions, sizes and speeds are measured in milli-units (one thousandth of
//! a world unit); angles in micro-radians; times in milliseconds. All state
//! lives in plain integer structs so that every rule of the simulation can be
//! stated and proved.

use vstd::prelude::*;

pub mod geom;
pub mod trig;
pub mod formation;
pub mod world;
pub mod motion;
pub mod enemy;
pub mod collision;
pub mod player;
pub mod explosion;
mod rng;

verus! {

/// Base speed shared by every formation and every laser, in milli-units per
/// second.
pub const BASE_SPEED_MILLI: i64 = 500_000;

/// Fixed simulation rate: sixty ticks make one second.
pub const TICKS_PER_SECOND: i64 = 60;

/// One tick of travel at full speed: the base speed over the tick rate,
/// rounded down to whole milli-units.
pub const BASE_STEP_MILLI: i64 = 8_333;

/// Extents of the player's bounding box (sprite size under its render scale),
/// in milli-units.
pub const PLAYER_WIDTH_MILLI: i64 = 72_000;

/// See `PLAYER_WIDTH_MILLI`.
pub const PLAYER_HEIGHT_MILLI: i64 = 37_500;

/// Extents of an enemy's bounding box, in milli-units.
pub const ENEMY_WIDTH_MILLI: i64 = 72_000;

/// See `ENEMY_WIDTH_MILLI`.
pub const ENEMY_HEIGHT_MILLI: i64 = 37_500;

/// Extents of a player laser's bounding box, in milli-units.
pub const PLAYER_LASER_WIDTH_MILLI: i64 = 4_500;

/// See `PLAYER_LASER_WIDTH_MILLI`.
pub const PLAYER_LASER_HEIGHT_MILLI: i64 = 27_000;

/// Extents of an enemy laser's bounding box, in milli-units.
pub const ENEMY_LASER_WIDTH_MILLI: i64 = 8_500;

/// See `ENEMY_LASER_WIDTH_MILLI`.
pub const ENEMY_LASER_HEIGHT_MILLI: i64 = 27_500;

/// How many members share one formation template before a new one is made.
pub const FORMATION_MEMBERS_MAX: u32 = 2;

/// Cap on simultaneously live enemies.
pub const ENEMY_MAX: u32 = 2;

/// Delay between the player's destruction and the earliest respawn, in
/// milliseconds.
pub const PLAYER_RESPAWN_DELAY_MS: i64 = 2_000;

/// Length of the invincibility window granted at spawn, in milliseconds.
pub const PLAYER_INVINCIBLE_MS: i64 = 1_500;

/// Frames of the explosion sprite sheet.
pub const EXPLOSION_FRAMES: usize = 16;

/// Time one explosion frame stays on screen, in milliseconds.
pub const EXPLOSION_FRAME_MS: i64 = 50;

/// How far past the play area an auto-despawning entity may drift, in
/// milli-units.
pub const DESPAWN_MARGIN_MILLI: i64 = 200_000;

/// Largest timestamp or tick length the simulation accepts, in milliseconds
/// (over a century of play).
pub const TIME_LIMIT_MS: i64 = 4_000_000_000_000;

} // verus!

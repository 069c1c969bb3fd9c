//! Fixed-point scales, tuning constants and modelling bounds.

use vstd::prelude::*;

verus! {

/// Coordinate ticks per world unit (one world unit is one screen pixel in the
/// host's default projection).
pub const UNIT: i64 = 1_000_000;

/// Velocity ticks per (world unit / second).
pub const VEL_UNIT: i64 = 1_000;

/// A raw frame delta is clamped into `[0, MAX_DT_MS]` milliseconds before it
/// drives a tick; host frame hitches beyond this bound are treated as one
/// second of simulated time.
pub const MAX_DT_MS: i64 = 1_000;

/// Computed coordinates are clamped into `[-COORD_LIMIT, COORD_LIMIT]`
/// (a box of a thousand million world units, far beyond any level).
pub const COORD_LIMIT: i64 = 1_000_000_000 * UNIT;

/// Stored positions may exceed `COORD_LIMIT` by small spawn or landing
/// offsets; they always stay within `[-POS_LIMIT, POS_LIMIT]`.
pub const POS_LIMIT: i64 = COORD_LIMIT + 1_000 * UNIT;

/// Vertical speeds are clamped to this terminal magnitude (a million world
/// units per second, unreachable in play).
pub const VEL_LIMIT: i64 = 1_000_000 * VEL_UNIT;

/// Bound on gravity values a body may carry.
pub const ACCEL_LIMIT: i64 = 100_000;

/// The score saturates here instead of overflowing.
pub const SCORE_CAP: i64 = 1_000_000_000_000;

pub const PLAYER_WIDTH: i64 = 40 * UNIT;
pub const PLAYER_HEIGHT: i64 = 50 * UNIT;
pub const PLAYER_HALF_WIDTH: i64 = 20 * UNIT;
pub const PLAYER_HALF_HEIGHT: i64 = 25 * UNIT;
pub const BASE_MOVE_SPEED: i64 = 200 * VEL_UNIT;
pub const SPEED_BOOST: i64 = 120 * VEL_UNIT;

/// Gravity, in velocity ticks per millisecond; one velocity tick per
/// millisecond equals one world unit per second squared, so this is
/// 800 world units per second squared.
pub const GRAVITY_ACCEL: i64 = 800;

pub const JUMP_SPEED: i64 = 400 * VEL_UNIT;
pub const HIGH_JUMP_SPEED: i64 = 650 * VEL_UNIT;

/// Upward impulse after stomping an enemy: nine tenths of the base jump
/// speed, never scaled by the high-jump effect.
pub const STOMP_BOUNCE_SPEED: i64 = 360 * VEL_UNIT;

pub const BULLET_SPEED: i64 = 500 * VEL_UNIT;
pub const ENEMY_WIDTH: i64 = 28 * UNIT;
pub const ENEMY_HEIGHT: i64 = 45 * UNIT;
pub const ENEMY_SPEED: i64 = 60 * VEL_UNIT;
pub const BONUS_SIZE: i64 = 20 * UNIT;
pub const POWERUP_SIZE: i64 = 20 * UNIT;
pub const BULLET_WIDTH: i64 = 10 * UNIT;
pub const BULLET_HEIGHT: i64 = 4 * UNIT;

/// Tolerance added to the "player was above the enemy" stomp test, to make it
/// robust to discrete-tick sampling.
pub const STOMP_FUDGE: i64 = 4 * UNIT;

pub const MAX_HEALTH: i64 = 3;

/// Bullets die on leaving `[0, WORLD_MAX_X] x [0, WORLD_MAX_Y]`.
pub const WORLD_MAX_X: i64 = 3_000 * UNIT;
pub const WORLD_MAX_Y: i64 = 2_000 * UNIT;

/// A body whose resolved vertical position exceeds this is considered fallen
/// out of the world; the player is teleported back to the level start.
pub const FALL_RESET_Y: i64 = 2_000 * UNIT;

/// Horizontal muzzle offset of a sideways shot from the player's centre.
pub const BULLET_SPAWN_OFFSET_X: i64 = 18 * UNIT;

/// Flat duration a timed power-up (re)sets its countdown to.
pub const POWERUP_DURATION_MS: i64 = 5_000;

/// Upper bound any status countdown can hold.
pub const TIMER_LIMIT_MS: i64 = 5_000;

pub const SHOOT_COOLDOWN_MS: i64 = 200;

pub const SCORE_ENEMY_SHOT: i64 = 100;
pub const SCORE_STOMP: i64 = 150;
pub const SCORE_BONUS: i64 = 50;

} // verus!

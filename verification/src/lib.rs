//! Core simulation engine of a 2D side-scrolling platformer.
//!
//! The library models the whole per-frame simulation: kinematic integration,
//! platform landing resolution, bullet/enemy/bonus/power-up interaction rules,
//! timer-driven status effects, and the level-progression state machine.
//! Rendering, input polling and the frame clock are the host's business; the
//! host hands each tick an [`intent::Intent`] snapshot and the elapsed time.
//!
//! All quantities are integers so that every rule can be stated and proved
//! exactly:
//! - coordinates are held in millionths of a world unit (`consts::UNIT`),
//! - velocities in thousandths of a world unit per second (`consts::VEL_UNIT`),
//! - durations in milliseconds.
//!
//! With these scales a position advances by exactly `velocity * dt` and a
//! velocity by exactly `accel * dt` per tick, with no rounding. Computed
//! coordinates are clamped into a huge world box (`consts::COORD_LIMIT`) far
//! beyond any reachable play area, which keeps every tick total and free of
//! overflow.

pub mod arith;
pub mod body;
pub mod bullet;
pub mod consts;
pub mod enemy;
pub mod geom;
pub mod intent;
pub mod laws;
pub mod level;
pub mod phases;
pub mod pickups;
pub mod player;
pub mod session;
pub mod timer;

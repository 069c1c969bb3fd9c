//! Clamped fixed-point arithmetic shared by every moving entity.

use vstd::prelude::*;
use crate::consts::{ACCEL_LIMIT, COORD_LIMIT, MAX_DT_MS, POS_LIMIT, SCORE_CAP, VEL_LIMIT};

verus! {

/// `v` clamped into `[lo, hi]`.
pub open spec fn clamp_m(v: int, lo: int, hi: int) -> int {
    if v < lo {
        lo
    } else if v > hi {
        hi
    } else {
        v
    }
}

/// A position after moving at velocity `v` for `dt` milliseconds, clamped
/// into the world box.
pub open spec fn advance_m(p: int, v: int, dt: int) -> int {
    clamp_m(p + v * dt, -(COORD_LIMIT as int), COORD_LIMIT as int)
}

/// A vertical speed after `dt` milliseconds under acceleration `a`, clamped
/// to the terminal magnitude.
pub open spec fn accel_m(v: int, a: int, dt: int) -> int {
    clamp_m(v + a * dt, -(VEL_LIMIT as int), VEL_LIMIT as int)
}

/// A countdown after `dt` milliseconds: decremented, never below zero.
pub open spec fn timer_tick_m(t: int, dt: int) -> int {
    if t - dt > 0 {
        t - dt
    } else {
        0
    }
}

/// Score addition, saturating at `SCORE_CAP`.
pub open spec fn score_add_m(s: int, d: int) -> int {
    if s + d > SCORE_CAP {
        SCORE_CAP as int
    } else {
        s + d
    }
}

pub proof fn lemma_mul_range(v: int, d: int, vb: int, db: int)
    by (nonlinear_arith)
    requires
        -vb <= v <= vb,
        0 <= d <= db,
        0 <= vb,
    ensures
        -(vb * db) <= v * d <= vb * db,
{
}

pub fn clamp_i64(v: i64, lo: i64, hi: i64) -> (r: i64)
    requires
        lo <= hi,
    ensures
        r == clamp_m(v as int, lo as int, hi as int),
{
    if v < lo {
        lo
    } else if v > hi {
        hi
    } else {
        v
    }
}

/// Advance a stored coordinate; total for any in-bounds state.
pub fn advance_coord(p: i64, v: i64, dt: i64) -> (r: i64)
    requires
        -POS_LIMIT <= p <= POS_LIMIT,
        -VEL_LIMIT <= v <= VEL_LIMIT,
        0 <= dt <= MAX_DT_MS,
    ensures
        r == advance_m(p as int, v as int, dt as int),
        -COORD_LIMIT <= r <= COORD_LIMIT,
{
    proof {
        lemma_mul_range(v as int, dt as int, VEL_LIMIT as int, MAX_DT_MS as int);
    }
    let d: i64 = v * dt;
    clamp_i64(p + d, -COORD_LIMIT, COORD_LIMIT)
}

/// Apply acceleration to a stored vertical speed.
pub fn accel_vel(v: i64, a: i64, dt: i64) -> (r: i64)
    requires
        -VEL_LIMIT <= v <= VEL_LIMIT,
        0 <= a <= ACCEL_LIMIT,
        0 <= dt <= MAX_DT_MS,
    ensures
        r == accel_m(v as int, a as int, dt as int),
        -VEL_LIMIT <= r <= VEL_LIMIT,
{
    proof {
        lemma_mul_range(a as int, dt as int, ACCEL_LIMIT as int, MAX_DT_MS as int);
    }
    let d: i64 = a * dt;
    clamp_i64(v + d, -VEL_LIMIT, VEL_LIMIT)
}

/// Saturating score increment.
pub fn score_add(s: i64, d: i64) -> (r: i64)
    requires
        0 <= s <= SCORE_CAP,
        0 <= d <= SCORE_CAP,
    ensures
        r == score_add_m(s as int, d as int),
        0 <= r <= SCORE_CAP,
{
    if s + d > SCORE_CAP {
        SCORE_CAP
    } else {
        s + d
    }
}

} // verus!

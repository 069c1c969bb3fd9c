//! Projectiles fired by the player.

use vstd::prelude::*;
use crate::arith::{advance_coord, advance_m, clamp_m};
use crate::consts::{
    BULLET_HEIGHT, BULLET_SPAWN_OFFSET_X, BULLET_SPEED, BULLET_WIDTH, COORD_LIMIT, MAX_DT_MS,
    PLAYER_HALF_HEIGHT, PLAYER_HALF_WIDTH, POS_LIMIT, VEL_LIMIT, WORLD_MAX_X, WORLD_MAX_Y,
};
use crate::geom::RectM;

verus! {

/// Mathematical view of a bullet.
pub ghost struct BulletM {
    pub x: int,
    pub y: int,
    pub vx: int,
    pub vy: int,
    pub alive: bool,
}

impl BulletM {
    pub open spec fn wf(self) -> bool {
        &&& -POS_LIMIT <= self.x <= POS_LIMIT
        &&& -POS_LIMIT <= self.y <= POS_LIMIT
        &&& -VEL_LIMIT <= self.vx <= VEL_LIMIT
        &&& -VEL_LIMIT <= self.vy <= VEL_LIMIT
    }

    pub open spec fn rect(self) -> RectM {
        RectM { x: self.x, y: self.y, w: BULLET_WIDTH as int, h: BULLET_HEIGHT as int }
    }
}

/// A projectile; it dies on leaving the world box or on its first hit.
#[derive(Clone, Copy, PartialEq, Eq, Debug)]
pub struct Bullet {
    pub x: i64,
    pub y: i64,
    pub vx: i64,
    pub vy: i64,
    pub alive: bool,
}

impl View for Bullet {
    type V = BulletM;

    open spec fn view(&self) -> BulletM {
        BulletM {
            x: self.x as int,
            y: self.y as int,
            vx: self.vx as int,
            vy: self.vy as int,
            alive: self.alive,
        }
    }
}

/// The views of a bullet roster.
pub open spec fn bullets_m(s: Seq<Bullet>) -> Seq<BulletM> {
    s.map_values(|b: Bullet| b@)
}

pub open spec fn bullets_wf(s: Seq<BulletM>) -> bool {
    forall|i: int| 0 <= i < s.len() ==> (#[trigger] s[i]).wf()
}

/// One integration step of a bullet: advance, then die outside the world
/// bounds. A dead bullet does not move.
pub open spec fn bullet_update_m(b: BulletM, dt: int) -> BulletM {
    if !b.alive {
        b
    } else {
        let x = advance_m(b.x, b.vx, dt);
        let y = advance_m(b.y, b.vy, dt);
        let inside = 0 <= x <= WORLD_MAX_X && 0 <= y <= WORLD_MAX_Y;
        BulletM { x, y, vx: b.vx, vy: b.vy, alive: inside }
    }
}

/// The bullet a shot spawns: straight up from the player's top centre when
/// aiming up, else sideways from the facing edge at half height.
pub open spec fn spawn_bullet_m(px: int, py: int, facing_right: bool, aim_up: bool) -> BulletM {
    if aim_up {
        BulletM {
            x: clamp_m(px + PLAYER_HALF_WIDTH, -(COORD_LIMIT as int), COORD_LIMIT as int),
            y: clamp_m(py, -(COORD_LIMIT as int), COORD_LIMIT as int),
            vx: 0,
            vy: -(BULLET_SPEED as int),
            alive: true,
        }
    } else {
        let dir: int = if facing_right { 1 } else { -1 };
        BulletM {
            x: clamp_m(
                px + PLAYER_HALF_WIDTH + dir * BULLET_SPAWN_OFFSET_X,
                -(COORD_LIMIT as int),
                COORD_LIMIT as int,
            ),
            y: clamp_m(py + PLAYER_HALF_HEIGHT, -(COORD_LIMIT as int), COORD_LIMIT as int),
            vx: dir * BULLET_SPEED,
            vy: 0,
            alive: true,
        }
    }
}

impl Bullet {
    pub open spec fn wf(self) -> bool {
        self@.wf()
    }

    pub fn rect(&self) -> (r: crate::geom::Rect)
        ensures
            r@ == self@.rect(),
    {
        crate::geom::Rect { x: self.x, y: self.y, w: BULLET_WIDTH, h: BULLET_HEIGHT }
    }

    /// Advance this bullet by `dt` milliseconds and cull it once it leaves
    /// the world bounds.
    pub fn update(&mut self, dt: i64)
        requires
            old(self).wf(),
            0 <= dt <= MAX_DT_MS,
        ensures
            final(self)@ == bullet_update_m(old(self)@, dt as int),
            final(self).wf(),
    {
        if !self.alive {
            return ;
        }
        self.x = advance_coord(self.x, self.vx, dt);
        self.y = advance_coord(self.y, self.vy, dt);
        if self.x < 0 || self.x > WORLD_MAX_X || self.y < 0 || self.y > WORLD_MAX_Y {
            self.alive = false;
        }
    }

    /// Spawn the bullet a shot from player position `(px, py)` produces.
    pub fn spawn(px: i64, py: i64, facing_right: bool, aim_up: bool) -> (r: Bullet)
        requires
            -POS_LIMIT <= px <= POS_LIMIT,
            -POS_LIMIT <= py <= POS_LIMIT,
        ensures
            r@ == spawn_bullet_m(px as int, py as int, facing_right, aim_up),
            r.wf(),
    {
        if aim_up {
            Bullet {
                x: crate::arith::clamp_i64(px + PLAYER_HALF_WIDTH, -COORD_LIMIT, COORD_LIMIT),
                y: crate::arith::clamp_i64(py, -COORD_LIMIT, COORD_LIMIT),
                vx: 0,
                vy: -BULLET_SPEED,
                alive: true,
            }
        } else {
            let dir: i64 = if facing_right {
                1
            } else {
                -1
            };
            Bullet {
                x: crate::arith::clamp_i64(
                    px + PLAYER_HALF_WIDTH + dir * BULLET_SPAWN_OFFSET_X,
                    -COORD_LIMIT,
                    COORD_LIMIT,
                ),
                y: crate::arith::clamp_i64(py + PLAYER_HALF_HEIGHT, -COORD_LIMIT, COORD_LIMIT),
                vx: dir * BULLET_SPEED,
                vy: 0,
                alive: true,
            }
        }
    }
}

} // verus!

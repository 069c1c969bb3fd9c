//! Patrolling enemies.

use vstd::prelude::*;
use crate::arith::{accel_m, accel_vel, advance_coord, advance_m};
use crate::body::{find_landing_top, landing_top_m};
use crate::consts::{
    ACCEL_LIMIT, COORD_LIMIT, ENEMY_HEIGHT, ENEMY_SPEED, ENEMY_WIDTH, MAX_DT_MS, POS_LIMIT,
    VEL_LIMIT,
};
use crate::geom::{rects_m, rects_wf, Rect, RectM};

verus! {

/// Mathematical view of an enemy.
pub ghost struct EnemyM {
    pub x: int,
    pub y: int,
    pub vx: int,
    pub vy: int,
    pub left_bound: int,
    pub right_bound: int,
    pub alive: bool,
    pub gravity: int,
    pub can_be_jumped_on: bool,
}

impl EnemyM {
    pub open spec fn wf(self) -> bool {
        &&& -POS_LIMIT <= self.x <= POS_LIMIT
        &&& -POS_LIMIT <= self.y <= POS_LIMIT
        &&& -VEL_LIMIT <= self.vx <= VEL_LIMIT
        &&& -VEL_LIMIT <= self.vy <= VEL_LIMIT
        &&& -COORD_LIMIT <= self.left_bound <= self.right_bound <= COORD_LIMIT
        &&& 0 <= self.gravity <= ACCEL_LIMIT
    }

    pub open spec fn rect(self) -> RectM {
        RectM { x: self.x, y: self.y, w: ENEMY_WIDTH as int, h: ENEMY_HEIGHT as int }
    }
}

/// A test-and-clamp patroller. Dead enemies stay in the roster but are inert.
#[derive(Clone, Copy, PartialEq, Eq, Debug)]
pub struct Enemy {
    pub x: i64,
    pub y: i64,
    pub vx: i64,
    pub vy: i64,
    pub left_bound: i64,
    pub right_bound: i64,
    pub alive: bool,
    pub gravity: i64,
    pub can_be_jumped_on: bool,
}

impl View for Enemy {
    type V = EnemyM;

    open spec fn view(&self) -> EnemyM {
        EnemyM {
            x: self.x as int,
            y: self.y as int,
            vx: self.vx as int,
            vy: self.vy as int,
            left_bound: self.left_bound as int,
            right_bound: self.right_bound as int,
            alive: self.alive,
            gravity: self.gravity as int,
            can_be_jumped_on: self.can_be_jumped_on,
        }
    }
}

/// The views of an enemy roster.
pub open spec fn enemies_m(s: Seq<Enemy>) -> Seq<EnemyM> {
    s.map_values(|e: Enemy| e@)
}

pub open spec fn enemies_wf(s: Seq<EnemyM>) -> bool {
    forall|i: int| 0 <= i < s.len() ==> (#[trigger] s[i]).wf()
}

/// One integration step of a live enemy: patrol horizontally between the
/// bounds (clamping on overshoot and reversing), fall under its gravity, and
/// land on the highest platform it penetrates from above. A dead enemy does
/// not move.
pub open spec fn enemy_update_m(e: EnemyM, dt: int, plats: Seq<RectM>) -> EnemyM {
    if !e.alive {
        e
    } else {
        let x0 = advance_m(e.x, e.vx, dt);
        let x1 = if x0 < e.left_bound { e.left_bound } else { x0 };
        let vx1 = if x0 < e.left_bound { ENEMY_SPEED as int } else { e.vx };
        let x2 = if x1 > e.right_bound { e.right_bound } else { x1 };
        let vx2 = if x1 > e.right_bound { -(ENEMY_SPEED as int) } else { vx1 };
        let vy1 = accel_m(e.vy, e.gravity, dt);
        let cy = advance_m(e.y, vy1, dt);
        let cand = RectM { x: x2, y: cy, w: ENEMY_WIDTH as int, h: ENEMY_HEIGHT as int };
        let land = if vy1 > 0 {
            landing_top_m(plats, cand, e.y + ENEMY_HEIGHT)
        } else {
            None
        };
        match land {
            Some(t) => EnemyM { x: x2, y: t - ENEMY_HEIGHT, vx: vx2, vy: 0, ..e },
            None => EnemyM { x: x2, y: cy, vx: vx2, vy: vy1, ..e },
        }
    }
}

impl Enemy {
    pub open spec fn wf(self) -> bool {
        self@.wf()
    }

    pub fn rect(&self) -> (r: Rect)
        ensures
            r@ == self@.rect(),
    {
        Rect { x: self.x, y: self.y, w: ENEMY_WIDTH, h: ENEMY_HEIGHT }
    }

    /// Advance this enemy by `dt` milliseconds over the given platforms.
    pub fn update(&mut self, dt: i64, platforms: &Vec<Rect>)
        requires
            old(self).wf(),
            0 <= dt <= MAX_DT_MS,
            rects_wf(rects_m(platforms@)),
        ensures
            final(self)@ == enemy_update_m(old(self)@, dt as int, rects_m(platforms@)),
            final(self).wf(),
    {
        if !self.alive {
            return ;
        }
        self.x = advance_coord(self.x, self.vx, dt);
        if self.x < self.left_bound {
            self.x = self.left_bound;
            self.vx = ENEMY_SPEED;
        }
        if self.x > self.right_bound {
            self.x = self.right_bound;
            self.vx = -ENEMY_SPEED;
        }
        self.vy = accel_vel(self.vy, self.gravity, dt);
        let new_y = advance_coord(self.y, self.vy, dt);
        let cand = Rect { x: self.x, y: new_y, w: ENEMY_WIDTH, h: ENEMY_HEIGHT };
        if self.vy > 0 {
            match find_landing_top(platforms, cand, self.y + ENEMY_HEIGHT) {
                Some(t) => {
                    self.y = t - ENEMY_HEIGHT;
                    self.vy = 0;
                },
                None => {
                    self.y = new_y;
                },
            }
        } else {
            self.y = new_y;
        }
    }
}

} // verus!

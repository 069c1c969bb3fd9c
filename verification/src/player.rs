//! The player character.

use vstd::prelude::*;
use crate::arith::{accel_m, accel_vel, advance_coord, advance_m, timer_tick_m};
use crate::body::{find_landing_top, landing_top_m};
use crate::consts::{
    BASE_MOVE_SPEED, COORD_LIMIT, FALL_RESET_Y, GRAVITY_ACCEL, HIGH_JUMP_SPEED, JUMP_SPEED,
    MAX_DT_MS, MAX_HEALTH, PLAYER_HEIGHT, PLAYER_WIDTH, POS_LIMIT, SCORE_CAP, SPEED_BOOST,
    TIMER_LIMIT_MS, VEL_LIMIT,
};
use crate::geom::{rects_m, rects_wf, Rect, RectM};
use crate::intent::{move_axis_m, Intent};
use crate::timer::Countdown;

verus! {

/// Mathematical view of the player.
pub ghost struct PlayerM {
    pub x: int,
    pub y: int,
    pub vx: int,
    pub vy: int,
    pub on_ground: bool,
    pub facing_right: bool,
    pub health: int,
    pub score: int,
    pub alive: bool,
    pub speed_ms: int,
    pub invincible_ms: int,
    pub high_jump_ms: int,
    pub prev_y: int,
}

impl PlayerM {
    pub open spec fn wf(self) -> bool {
        &&& -POS_LIMIT <= self.x <= POS_LIMIT
        &&& -POS_LIMIT <= self.y <= POS_LIMIT
        &&& -POS_LIMIT <= self.prev_y <= POS_LIMIT
        &&& -VEL_LIMIT <= self.vx <= VEL_LIMIT
        &&& -VEL_LIMIT <= self.vy <= VEL_LIMIT
        &&& 0 <= self.health <= MAX_HEALTH
        &&& (self.alive <==> self.health > 0)
        &&& 0 <= self.score <= SCORE_CAP
        &&& 0 <= self.speed_ms <= TIMER_LIMIT_MS
        &&& 0 <= self.invincible_ms <= TIMER_LIMIT_MS
        &&& 0 <= self.high_jump_ms <= TIMER_LIMIT_MS
    }

    pub open spec fn rect(self) -> RectM {
        RectM { x: self.x, y: self.y, w: PLAYER_WIDTH as int, h: PLAYER_HEIGHT as int }
    }
}

/// The player: a kinematic body plus health, score, status countdowns and the
/// previous-frame vertical position used by stomp detection.
#[derive(Clone, Copy, PartialEq, Eq, Debug)]
pub struct Player {
    pub x: i64,
    pub y: i64,
    pub vx: i64,
    pub vy: i64,
    pub on_ground: bool,
    pub facing_right: bool,
    pub health: i64,
    pub score: i64,
    pub alive: bool,
    pub speed: Countdown,
    pub invincible: Countdown,
    pub high_jump: Countdown,
    pub prev_y: i64,
}

impl View for Player {
    type V = PlayerM;

    open spec fn view(&self) -> PlayerM {
        PlayerM {
            x: self.x as int,
            y: self.y as int,
            vx: self.vx as int,
            vy: self.vy as int,
            on_ground: self.on_ground,
            facing_right: self.facing_right,
            health: self.health as int,
            score: self.score as int,
            alive: self.alive,
            speed_ms: self.speed.ms as int,
            invincible_ms: self.invincible.ms as int,
            high_jump_ms: self.high_jump.ms as int,
            prev_y: self.prev_y as int,
        }
    }
}

/// The player spawned at a level start: full health, zero score, falling
/// freely, facing right, no status effect running.
pub open spec fn fresh_player_m(sx: int, sy: int) -> PlayerM {
    PlayerM {
        x: sx,
        y: sy,
        vx: 0,
        vy: 0,
        on_ground: false,
        facing_right: true,
        health: MAX_HEALTH as int,
        score: 0,
        alive: true,
        speed_ms: 0,
        invincible_ms: 0,
        high_jump_ms: 0,
        prev_y: sy,
    }
}

/// Reposition the player at `(sx, sy)` with zeroed velocity, leaving health,
/// score, timers, facing and ground state untouched.
pub open spec fn reset_player_m(p: PlayerM, sx: int, sy: int) -> PlayerM {
    PlayerM { x: sx, y: sy, vx: 0, vy: 0, prev_y: sy, ..p }
}

/// The horizontal speed the player moves at: base speed, boosted while the
/// speed countdown runs.
pub open spec fn move_speed_m(p: PlayerM) -> int {
    BASE_MOVE_SPEED + if p.speed_ms > 0 {
        SPEED_BOOST as int
    } else {
        0
    }
}

/// The upward jump impulse: elevated while the high-jump countdown runs.
pub open spec fn jump_speed_m(p: PlayerM) -> int {
    if p.high_jump_ms > 0 {
        HIGH_JUMP_SPEED as int
    } else {
        JUMP_SPEED as int
    }
}

/// One integration step of the player, given this frame's intent:
/// horizontal velocity straight from input (no inertia), an optional jump off
/// the ground, status countdowns ticking, gravity, landing on the highest
/// valid platform, and the out-of-world fall reset to the level start.
/// A dead player does not move: nothing changes.
pub open spec fn player_update_m(
    p: PlayerM,
    intent: Intent,
    dt: int,
    plats: Seq<RectM>,
    start_x: int,
    start_y: int,
) -> PlayerM {
    if !p.alive {
        p
    } else {
        player_update_live_m(p, intent, dt, plats, start_x, start_y)
    }
}

/// The live-player step behind `player_update_m`.
pub open spec fn player_update_live_m(
    p: PlayerM,
    intent: Intent,
    dt: int,
    plats: Seq<RectM>,
    start_x: int,
    start_y: int,
) -> PlayerM {
    let axis = move_axis_m(intent);
    let vx = axis * move_speed_m(p);
    let facing = if axis > 0 {
        true
    } else if axis < 0 {
        false
    } else {
        p.facing_right
    };
    let jumps = p.on_ground && intent.jump_pressed;
    let vy0 = if jumps {
        -jump_speed_m(p)
    } else {
        p.vy
    };
    let speed1 = timer_tick_m(p.speed_ms, dt);
    let invincible1 = timer_tick_m(p.invincible_ms, dt);
    let high_jump1 = timer_tick_m(p.high_jump_ms, dt);
    let vy1 = accel_m(vy0, GRAVITY_ACCEL as int, dt);
    let cx = advance_m(p.x, vx, dt);
    let cy = advance_m(p.y, vy1, dt);
    let cand = RectM { x: cx, y: cy, w: PLAYER_WIDTH as int, h: PLAYER_HEIGHT as int };
    let land = if vy1 > 0 {
        landing_top_m(plats, cand, p.y + PLAYER_HEIGHT)
    } else {
        None
    };
    let landed = land is Some;
    let y2 = if landed {
        land->0 - PLAYER_HEIGHT
    } else {
        cy
    };
    let vy2: int = if landed {
        0
    } else {
        vy1
    };
    if y2 > FALL_RESET_Y {
        PlayerM {
            x: start_x,
            y: start_y,
            vx: 0,
            vy: 0,
            on_ground: landed,
            facing_right: facing,
            speed_ms: speed1,
            invincible_ms: invincible1,
            high_jump_ms: high_jump1,
            prev_y: p.y,
            ..p
        }
    } else {
        PlayerM {
            x: cx,
            y: y2,
            vx: vx,
            vy: vy2,
            on_ground: landed,
            facing_right: facing,
            speed_ms: speed1,
            invincible_ms: invincible1,
            high_jump_ms: high_jump1,
            prev_y: p.y,
            ..p
        }
    }
}

impl Player {
    pub open spec fn wf(self) -> bool {
        self@.wf()
    }

    /// The player spawned at a level start.
    pub fn fresh(start_x: i64, start_y: i64) -> (r: Player)
        requires
            -COORD_LIMIT <= start_x <= COORD_LIMIT,
            -COORD_LIMIT <= start_y <= COORD_LIMIT,
        ensures
            r@ == fresh_player_m(start_x as int, start_y as int),
            r.wf(),
    {
        Player {
            x: start_x,
            y: start_y,
            vx: 0,
            vy: 0,
            on_ground: false,
            facing_right: true,
            health: MAX_HEALTH,
            score: 0,
            alive: true,
            speed: Countdown::zero(),
            invincible: Countdown::zero(),
            high_jump: Countdown::zero(),
            prev_y: start_y,
        }
    }

    pub fn rect(&self) -> (r: Rect)
        ensures
            r@ == self@.rect(),
    {
        Rect { x: self.x, y: self.y, w: PLAYER_WIDTH, h: PLAYER_HEIGHT }
    }

    /// Reposition at `(sx, sy)`, zeroing velocity and the stomp reference.
    pub fn reset(&mut self, sx: i64, sy: i64)
        requires
            -COORD_LIMIT <= sx <= COORD_LIMIT,
            -COORD_LIMIT <= sy <= COORD_LIMIT,
        ensures
            final(self)@ == reset_player_m(old(self)@, sx as int, sy as int),
            old(self).wf() ==> final(self).wf(),
    {
        self.x = sx;
        self.y = sy;
        self.vx = 0;
        self.vy = 0;
        self.prev_y = sy;
    }

    /// Advance the player by `dt` milliseconds over the given platforms; a
    /// dead player is left untouched.
    pub fn update(
        &mut self,
        intent: Intent,
        dt: i64,
        platforms: &Vec<Rect>,
        start_x: i64,
        start_y: i64,
    )
        requires
            old(self).wf(),
            0 <= dt <= MAX_DT_MS,
            rects_wf(rects_m(platforms@)),
            -COORD_LIMIT <= start_x <= COORD_LIMIT,
            -COORD_LIMIT <= start_y <= COORD_LIMIT,
        ensures
            final(self)@ == player_update_m(
                old(self)@,
                intent,
                dt as int,
                rects_m(platforms@),
                start_x as int,
                start_y as int,
            ),
            final(self).wf(),
    {
        if !self.alive {
            return ;
        }
        self.prev_y = self.y;
        let mut axis: i64 = 0;
        if intent.move_left {
            axis = axis - 1;
        }
        if intent.move_right {
            axis = axis + 1;
        }
        let move_speed: i64 = if self.speed.is_active() {
            BASE_MOVE_SPEED + SPEED_BOOST
        } else {
            BASE_MOVE_SPEED
        };
        self.vx = if axis > 0 {
            move_speed
        } else if axis < 0 {
            -move_speed
        } else {
            0
        };
        proof {
            let a = move_axis_m(intent);
            let ms = move_speed_m(old(self)@);
            if axis > 0 {
                assert(a * ms == ms) by (nonlinear_arith)
                    requires
                        a == 1,
                ;
            } else if axis < 0 {
                assert(a * ms == -ms) by (nonlinear_arith)
                    requires
                        a == -1,
                ;
            } else {
                assert(a * ms == 0) by (nonlinear_arith)
                    requires
                        a == 0,
                ;
            }
            assert(self.vx == a * ms);
        }
        if axis > 0 {
            self.facing_right = true;
        } else if axis < 0 {
            self.facing_right = false;
        }
        let jump_speed: i64 = if self.high_jump.is_active() {
            HIGH_JUMP_SPEED
        } else {
            JUMP_SPEED
        };
        if self.on_ground && intent.jump_pressed {
            self.vy = -jump_speed;
            self.on_ground = false;
        }
        self.speed.tick(dt);
        self.invincible.tick(dt);
        self.high_jump.tick(dt);
        self.vy = accel_vel(self.vy, GRAVITY_ACCEL, dt);
        let cx = advance_coord(self.x, self.vx, dt);
        let cy = advance_coord(self.prev_y, self.vy, dt);
        let cand = Rect { x: cx, y: cy, w: PLAYER_WIDTH, h: PLAYER_HEIGHT };
        let mut landed = false;
        let mut y2 = cy;
        if self.vy > 0 {
            match find_landing_top(platforms, cand, self.prev_y + PLAYER_HEIGHT) {
                Some(t) => {
                    y2 = t - PLAYER_HEIGHT;
                    self.vy = 0;
                    landed = true;
                },
                None => {},
            }
        }
        self.on_ground = landed;
        if y2 > FALL_RESET_Y {
            self.x = start_x;
            self.y = start_y;
            self.vx = 0;
            self.vy = 0;
        } else {
            self.x = cx;
            self.y = y2;
        }
    }
}

} // verus!

//! Immutable level descriptions and the built-in level registry.

use vstd::prelude::*;
use crate::consts::{COORD_LIMIT, ENEMY_SPEED, GRAVITY_ACCEL, UNIT, VEL_UNIT};
use crate::enemy::{enemies_m, enemies_wf, Enemy, EnemyM};
use crate::geom::{rects_m, rects_wf, Rect, RectM};
use crate::pickups::{
    bonuses_m, bonuses_wf, powerups_m, powerups_wf, Bonus, BonusM, PowerUp, PowerUpKind, PowerUpM,
};

verus! {

/// Mathematical view of a level template.
#[verifier::ext_equal]
pub ghost struct LevelM {
    pub platforms: Seq<RectM>,
    pub enemies: Seq<EnemyM>,
    pub bonuses: Seq<BonusM>,
    pub powerups: Seq<PowerUpM>,
    pub start_x: int,
    pub start_y: int,
    pub goal_x: int,
}

impl LevelM {
    pub open spec fn wf(self) -> bool {
        &&& rects_wf(self.platforms)
        &&& enemies_wf(self.enemies)
        &&& bonuses_wf(self.bonuses)
        &&& powerups_wf(self.powerups)
        &&& -COORD_LIMIT <= self.start_x <= COORD_LIMIT
        &&& -COORD_LIMIT <= self.start_y <= COORD_LIMIT
        &&& -COORD_LIMIT <= self.goal_x <= COORD_LIMIT
    }
}

/// An immutable scene description; the session's rosters are working copies
/// cloned from these lists, and the template itself is never mutated.
pub struct Level {
    pub platforms: Vec<Rect>,
    pub enemies: Vec<Enemy>,
    pub bonuses: Vec<Bonus>,
    pub powerups: Vec<PowerUp>,
    pub start_x: i64,
    pub start_y: i64,
    pub goal_x: i64,
}

impl View for Level {
    type V = LevelM;

    open spec fn view(&self) -> LevelM {
        LevelM {
            platforms: rects_m(self.platforms@),
            enemies: enemies_m(self.enemies@),
            bonuses: bonuses_m(self.bonuses@),
            powerups: powerups_m(self.powerups@),
            start_x: self.start_x as int,
            start_y: self.start_y as int,
            goal_x: self.goal_x as int,
        }
    }
}

impl Level {
    pub open spec fn wf(self) -> bool {
        self@.wf()
    }
}

/// The views of a level list.
pub open spec fn levels_m(s: Seq<Level>) -> Seq<LevelM> {
    s.map_values(|l: Level| l@)
}

pub open spec fn levels_wf(s: Seq<LevelM>) -> bool {
    forall|i: int| 0 <= i < s.len() ==> (#[trigger] s[i]).wf()
}

// ---------------------------------------------------------------------------
// Copying template rosters into working rosters
// ---------------------------------------------------------------------------

/// An element-wise copy of an enemy roster.
pub fn clone_enemies(src: &Vec<Enemy>) -> (r: Vec<Enemy>)
    ensures
        r@ == src@,
{
    let mut r: Vec<Enemy> = Vec::new();
    let mut i: usize = 0;
    while i < src.len()
        invariant
            0 <= i <= src@.len(),
            r@ == src@.take(i as int),
        decreases src@.len() - i,
    {
        r.push(src[i]);
        proof {
            assert(r@ =~= src@.take(i + 1));
        }
        i = i + 1;
    }
    proof {
        assert(src@.take(src@.len() as int) =~= src@);
    }
    r
}

/// An element-wise copy of a bonus roster.
pub fn clone_bonuses(src: &Vec<Bonus>) -> (r: Vec<Bonus>)
    ensures
        r@ == src@,
{
    let mut r: Vec<Bonus> = Vec::new();
    let mut i: usize = 0;
    while i < src.len()
        invariant
            0 <= i <= src@.len(),
            r@ == src@.take(i as int),
        decreases src@.len() - i,
    {
        r.push(src[i]);
        proof {
            assert(r@ =~= src@.take(i + 1));
        }
        i = i + 1;
    }
    proof {
        assert(src@.take(src@.len() as int) =~= src@);
    }
    r
}

/// An element-wise copy of a power-up roster.
pub fn clone_powerups(src: &Vec<PowerUp>) -> (r: Vec<PowerUp>)
    ensures
        r@ == src@,
{
    let mut r: Vec<PowerUp> = Vec::new();
    let mut i: usize = 0;
    while i < src.len()
        invariant
            0 <= i <= src@.len(),
            r@ == src@.take(i as int),
        decreases src@.len() - i,
    {
        r.push(src[i]);
        proof {
            assert(r@ =~= src@.take(i + 1));
        }
        i = i + 1;
    }
    proof {
        assert(src@.take(src@.len() as int) =~= src@);
    }
    r
}

// ---------------------------------------------------------------------------
// The built-in levels
// ---------------------------------------------------------------------------

/// A rectangle given in whole world units.
pub open spec fn rect_at_m(x: int, y: int, w: int, h: int) -> RectM {
    RectM { x: x * UNIT, y: y * UNIT, w: w * UNIT, h: h * UNIT }
}

/// A freshly placed patrolling enemy given in whole world units; `vx` is in
/// world units per second.
pub open spec fn enemy_at_m(
    x: int,
    y: int,
    vx: int,
    left: int,
    right: int,
    can_be_jumped_on: bool,
) -> EnemyM {
    EnemyM {
        x: x * UNIT,
        y: y * UNIT,
        vx: vx * VEL_UNIT,
        vy: 0,
        left_bound: left * UNIT,
        right_bound: right * UNIT,
        alive: true,
        gravity: GRAVITY_ACCEL as int,
        can_be_jumped_on: can_be_jumped_on,
    }
}

/// An uncollected bonus given in whole world units.
pub open spec fn bonus_at_m(x: int, y: int) -> BonusM {
    BonusM { x: x * UNIT, y: y * UNIT, collected: false }
}

/// An uncollected power-up given in whole world units.
pub open spec fn powerup_at_m(x: int, y: int, kind: PowerUpKind) -> PowerUpM {
    PowerUpM { x: x * UNIT, y: y * UNIT, kind: kind, collected: false }
}

pub open spec fn level_one_m() -> LevelM {
    LevelM {
        platforms: seq![
            rect_at_m(0, 400, 1000, 40),
            rect_at_m(300, 320, 120, 20),
            rect_at_m(600, 260, 100, 20),
            rect_at_m(900, 350, 140, 20),
        ],
        enemies: seq![
            enemy_at_m(320, 270, 60, 300, 390, true),
            enemy_at_m(620, 210, -60, 600, 690, false),
        ],
        bonuses: seq![bonus_at_m(340, 295), bonus_at_m(650, 235)],
        powerups: seq![
            powerup_at_m(935, 325, PowerUpKind::Speed),
            powerup_at_m(700, 235, PowerUpKind::HighJump),
        ],
        start_x: 100 * UNIT,
        start_y: 100 * UNIT,
        goal_x: 1050 * UNIT,
    }
}

pub open spec fn level_two_m() -> LevelM {
    LevelM {
        platforms: seq![
            rect_at_m(0, 400, 1400, 40),
            rect_at_m(200, 320, 120, 20),
            rect_at_m(600, 250, 100, 20),
            rect_at_m(1000, 200, 90, 20),
            rect_at_m(1200, 320, 100, 20),
        ],
        enemies: seq![
            enemy_at_m(220, 270, 60, 200, 320, true),
            enemy_at_m(620, 200, -60, 600, 700, false),
            enemy_at_m(1020, 150, 60, 1000, 1090, true),
        ],
        bonuses: seq![bonus_at_m(650, 225), bonus_at_m(1250, 295)],
        powerups: seq![
            powerup_at_m(1100, 175, PowerUpKind::Invincibility),
            powerup_at_m(1300, 295, PowerUpKind::HighJump),
        ],
        start_x: 100 * UNIT,
        start_y: 100 * UNIT,
        goal_x: 1450 * UNIT,
    }
}

pub open spec fn level_three_m() -> LevelM {
    LevelM {
        platforms: seq![
            rect_at_m(0, 400, 1000, 40),
            rect_at_m(300, 320, 120, 20),
            rect_at_m(400, 260, 100, 20),
            rect_at_m(400, 350, 140, 20),
        ],
        enemies: seq![
            enemy_at_m(320, 270, 60, 300, 390, true),
            enemy_at_m(620, 210, -60, 600, 690, false),
        ],
        bonuses: seq![bonus_at_m(340, 295), bonus_at_m(650, 235)],
        powerups: seq![
            powerup_at_m(935, 325, PowerUpKind::Speed),
            powerup_at_m(700, 235, PowerUpKind::HighJump),
        ],
        start_x: 100 * UNIT,
        start_y: 100 * UNIT,
        goal_x: 1050 * UNIT,
    }
}

/// The whole built-in registry, in play order.
pub open spec fn built_in_levels_m() -> Seq<LevelM> {
    seq![level_one_m(), level_two_m(), level_three_m()]
}

/// A coordinate in whole world units.
fn u(v: i64) -> (r: i64)
    requires
        -100_000 <= v <= 100_000,
    ensures
        r == v * (UNIT as int),
        -COORD_LIMIT <= r <= COORD_LIMIT,
{
    v * UNIT
}

/// A rectangle in whole world units.
fn rect_at(x: i64, y: i64, w: i64, h: i64) -> (r: Rect)
    requires
        -100_000 <= x <= 100_000,
        -100_000 <= y <= 100_000,
        1 <= w <= 100_000,
        1 <= h <= 100_000,
    ensures
        r@ == rect_at_m(x as int, y as int, w as int, h as int),
        r.wf(),
{
    Rect { x: u(x), y: u(y), w: u(w), h: u(h) }
}

/// A freshly placed patrolling enemy in whole world units.
fn enemy_at(x: i64, y: i64, vx: i64, left: i64, right: i64, can_be_jumped_on: bool) -> (r: Enemy)
    requires
        -100_000 <= x <= 100_000,
        -100_000 <= y <= 100_000,
        -1_000 <= vx <= 1_000,
        -100_000 <= left <= right <= 100_000,
    ensures
        r@ == enemy_at_m(x as int, y as int, vx as int, left as int, right as int, can_be_jumped_on),
        r.wf(),
{
    Enemy {
        x: u(x),
        y: u(y),
        vx: vx * VEL_UNIT,
        vy: 0,
        left_bound: u(left),
        right_bound: u(right),
        alive: true,
        gravity: GRAVITY_ACCEL,
        can_be_jumped_on,
    }
}

/// An uncollected bonus in whole world units.
fn bonus_at(x: i64, y: i64) -> (r: Bonus)
    requires
        -100_000 <= x <= 100_000,
        -100_000 <= y <= 100_000,
    ensures
        r@ == bonus_at_m(x as int, y as int),
        r.wf(),
{
    Bonus { x: u(x), y: u(y), collected: false }
}

/// An uncollected power-up in whole world units.
fn powerup_at(x: i64, y: i64, kind: PowerUpKind) -> (r: PowerUp)
    requires
        -100_000 <= x <= 100_000,
        -100_000 <= y <= 100_000,
    ensures
        r@ == powerup_at_m(x as int, y as int, kind),
        r.wf(),
{
    PowerUp { x: u(x), y: u(y), kind, collected: false }
}

/// Build the built-in level registry: three levels, exactly as
/// `built_in_levels_m` describes them.
pub fn make_levels() -> (r: Vec<Level>)
    ensures
        levels_m(r@) == built_in_levels_m(),
        levels_wf(levels_m(r@)),
        r@.len() == 3,
{
    let mut platforms1: Vec<Rect> = Vec::new();
    platforms1.push(rect_at(0, 400, 1000, 40));
    platforms1.push(rect_at(300, 320, 120, 20));
    platforms1.push(rect_at(600, 260, 100, 20));
    platforms1.push(rect_at(900, 350, 140, 20));
    let mut enemies1: Vec<Enemy> = Vec::new();
    enemies1.push(enemy_at(320, 270, 60, 300, 390, true));
    enemies1.push(enemy_at(620, 210, -60, 600, 690, false));
    let mut bonuses1: Vec<Bonus> = Vec::new();
    bonuses1.push(bonus_at(340, 295));
    bonuses1.push(bonus_at(650, 235));
    let mut powerups1: Vec<PowerUp> = Vec::new();
    powerups1.push(powerup_at(935, 325, PowerUpKind::Speed));
    powerups1.push(powerup_at(700, 235, PowerUpKind::HighJump));
    let level1 = Level {
        platforms: platforms1,
        enemies: enemies1,
        bonuses: bonuses1,
        powerups: powerups1,
        start_x: u(100),
        start_y: u(100),
        goal_x: u(1050),
    };
    proof {
        assert(rects_m(level1.platforms@) =~= level_one_m().platforms);
        assert(enemies_m(level1.enemies@) =~= level_one_m().enemies);
        assert(bonuses_m(level1.bonuses@) =~= level_one_m().bonuses);
        assert(powerups_m(level1.powerups@) =~= level_one_m().powerups);
        assert(level1@ =~= level_one_m());
    }

    let mut platforms2: Vec<Rect> = Vec::new();
    platforms2.push(rect_at(0, 400, 1400, 40));
    platforms2.push(rect_at(200, 320, 120, 20));
    platforms2.push(rect_at(600, 250, 100, 20));
    platforms2.push(rect_at(1000, 200, 90, 20));
    platforms2.push(rect_at(1200, 320, 100, 20));
    let mut enemies2: Vec<Enemy> = Vec::new();
    enemies2.push(enemy_at(220, 270, 60, 200, 320, true));
    enemies2.push(enemy_at(620, 200, -60, 600, 700, false));
    enemies2.push(enemy_at(1020, 150, 60, 1000, 1090, true));
    let mut bonuses2: Vec<Bonus> = Vec::new();
    bonuses2.push(bonus_at(650, 225));
    bonuses2.push(bonus_at(1250, 295));
    let mut powerups2: Vec<PowerUp> = Vec::new();
    powerups2.push(powerup_at(1100, 175, PowerUpKind::Invincibility));
    powerups2.push(powerup_at(1300, 295, PowerUpKind::HighJump));
    let level2 = Level {
        platforms: platforms2,
        enemies: enemies2,
        bonuses: bonuses2,
        powerups: powerups2,
        start_x: u(100),
        start_y: u(100),
        goal_x: u(1450),
    };
    proof {
        assert(rects_m(level2.platforms@) =~= level_two_m().platforms);
        assert(enemies_m(level2.enemies@) =~= level_two_m().enemies);
        assert(bonuses_m(level2.bonuses@) =~= level_two_m().bonuses);
        assert(powerups_m(level2.powerups@) =~= level_two_m().powerups);
        assert(level2@ =~= level_two_m());
    }

    let mut platforms3: Vec<Rect> = Vec::new();
    platforms3.push(rect_at(0, 400, 1000, 40));
    platforms3.push(rect_at(300, 320, 120, 20));
    platforms3.push(rect_at(400, 260, 100, 20));
    platforms3.push(rect_at(400, 350, 140, 20));
    let mut enemies3: Vec<Enemy> = Vec::new();
    enemies3.push(enemy_at(320, 270, 60, 300, 390, true));
    enemies3.push(enemy_at(620, 210, -60, 600, 690, false));
    let mut bonuses3: Vec<Bonus> = Vec::new();
    bonuses3.push(bonus_at(340, 295));
    bonuses3.push(bonus_at(650, 235));
    let mut powerups3: Vec<PowerUp> = Vec::new();
    powerups3.push(powerup_at(935, 325, PowerUpKind::Speed));
    powerups3.push(powerup_at(700, 235, PowerUpKind::HighJump));
    let level3 = Level {
        platforms: platforms3,
        enemies: enemies3,
        bonuses: bonuses3,
        powerups: powerups3,
        start_x: u(100),
        start_y: u(100),
        goal_x: u(1050),
    };
    proof {
        assert(rects_m(level3.platforms@) =~= level_three_m().platforms);
        assert(enemies_m(level3.enemies@) =~= level_three_m().enemies);
        assert(bonuses_m(level3.bonuses@) =~= level_three_m().bonuses);
        assert(powerups_m(level3.powerups@) =~= level_three_m().powerups);
        assert(level3@ =~= level_three_m());
    }

    let mut levels: Vec<Level> = Vec::new();
    levels.push(level1);
    levels.push(level2);
    levels.push(level3);
    proof {
        assert(levels_m(levels@) =~= built_in_levels_m());
    }
    levels
}

} // verus!

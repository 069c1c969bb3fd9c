//! The library's stated laws: properties of the simulation that hold for
//! every input, proved once and for all against the model functions the
//! executable engine is verified to implement.

use vstd::prelude::*;
use crate::arith::score_add_m;
use crate::body::{can_land_m, landing_top_m, lemma_landing_top_order_independent,
    lemma_landing_top_props};
use crate::bullet::BulletM;
use crate::consts::{
    COORD_LIMIT, FALL_RESET_Y, GRAVITY_ACCEL, MAX_DT_MS, PLAYER_HEIGHT, PLAYER_WIDTH,
    POWERUP_DURATION_MS, SCORE_CAP, SCORE_ENEMY_SHOT, SCORE_STOMP, VEL_LIMIT,
};
use crate::enemy::EnemyM;
use crate::geom::{rects_wf, RectM};
use crate::intent::Intent;
use crate::phases::{
    apply_powerup_m, bonuses_from, first_overlap_from, hits_from, kill_enemy_m,
    lemma_first_overlap_from, player_enemy_m, powerups_from, stomp_cond_m, stomp_from,
    stomp_player_m,
};
use crate::pickups::{BonusM, PowerUpKind, PowerUpM};
use crate::player::{player_update_m, PlayerM};
use crate::session::{progress_m, tick_m, SessionM};

verus! {

// ---------------------------------------------------------------------------
// Resting on a platform
// ---------------------------------------------------------------------------

/// A body with zero velocity resting exactly on a platform, subject only to
/// gravity, lands back at the same resting height after one tick: it does
/// not sink through a platform it already rests on. The gravity bound rules
/// out a single step long enough to tunnel below the platform, the
/// documented large-`dt` limitation.
pub proof fn law_rest_on_platform(
    p: PlayerM,
    intent: Intent,
    dt: int,
    plats: Seq<RectM>,
    k: int,
    sx: int,
    sy: int,
)
    requires
        p.wf(),
        rects_wf(plats),
        0 <= dt <= MAX_DT_MS,
        0 <= k < plats.len(),
        p.vy == 0,
        !intent.jump_pressed,
        !intent.move_left,
        !intent.move_right,
        p.y + PLAYER_HEIGHT == plats[k].y,
        p.x < plats[k].x + plats[k].w,
        plats[k].x < p.x + PLAYER_WIDTH,
        GRAVITY_ACCEL * dt * dt <= plats[k].h,
        -COORD_LIMIT <= p.x <= COORD_LIMIT,
        -COORD_LIMIT <= p.y,
        p.y <= FALL_RESET_Y,
    ensures
        player_update_m(p, intent, dt, plats, sx, sy).y == p.y,
        player_update_m(p, intent, dt, plats, sx, sy).x == p.x,
        player_update_m(p, intent, dt, plats, sx, sy).vy == 0,
{
    let ms = crate::player::move_speed_m(p);
    assert(0 * ms == 0) by (nonlinear_arith);
    assert(0 * dt == 0) by (nonlinear_arith);
    let vy1 = crate::arith::accel_m(0, GRAVITY_ACCEL as int, dt);
    crate::arith::lemma_mul_range(GRAVITY_ACCEL as int, dt, GRAVITY_ACCEL as int, MAX_DT_MS as int);
    assert(vy1 == GRAVITY_ACCEL * dt);
    let cx = crate::arith::advance_m(p.x, 0, dt);
    assert(cx == p.x);
    if dt == 0 {
        assert(GRAVITY_ACCEL * dt == 0) by (nonlinear_arith)
            requires
                dt == 0,
        ;
        assert(vy1 == 0);
        assert(player_update_m(p, intent, dt, plats, sx, sy).y == p.y);
    } else {
        assert(vy1 > 0) by (nonlinear_arith)
            requires
                vy1 == GRAVITY_ACCEL * dt,
                dt >= 1,
        ;
        let pen = vy1 * dt;
        assert(pen == GRAVITY_ACCEL * dt * dt) by (nonlinear_arith)
            requires
                vy1 == GRAVITY_ACCEL * dt,
                pen == vy1 * dt,
        ;
        assert(pen > 0) by (nonlinear_arith)
            requires
                pen == vy1 * dt,
                vy1 > 0,
                dt > 0,
        ;
        crate::arith::lemma_mul_range(vy1, dt, VEL_LIMIT as int, MAX_DT_MS as int);
        let cy = crate::arith::advance_m(p.y, vy1, dt);
        let cand = RectM { x: cx, y: cy, w: PLAYER_WIDTH as int, h: PLAYER_HEIGHT as int };
        let ob = p.y + PLAYER_HEIGHT;
        // The candidate still penetrates platform `k`, whether or not the
        // world-box clamp engaged.
        assert(cy > p.y);
        assert(cy <= p.y + pen);
        assert(cand.overlaps(plats[k]));
        assert(can_land_m(plats[k], cand, ob));
        lemma_landing_top_props(plats, cand, ob);
        let land = landing_top_m(plats, cand, ob);
        assert(land is Some);
        // Every platform the body can land on has its top at or below the
        // previous bottom edge, which is exactly platform `k`'s top.
        assert(land->0 <= plats[k].y);
        assert(land->0 >= ob) by {
            let j = choose|j: int|
                0 <= j < plats.len() && can_land_m(#[trigger] plats[j], cand, ob) && plats[j].y
                    == land->0;
        }
        assert(land->0 == plats[k].y);
    }
}

/// Landing resolution is order-independent: two platform lists holding the
/// same platforms give the player the same tick outcome, because the body
/// resolves to the highest valid platform top whatever the list order.
pub proof fn law_landing_order_independent(
    p: PlayerM,
    intent: Intent,
    dt: int,
    plats_a: Seq<RectM>,
    plats_b: Seq<RectM>,
    sx: int,
    sy: int,
)
    requires
        forall|r: RectM| plats_a.contains(r) <==> plats_b.contains(r),
    ensures
        player_update_m(p, intent, dt, plats_a, sx, sy) == player_update_m(
            p,
            intent,
            dt,
            plats_b,
            sx,
            sy,
        ),
{
    let vy1 = crate::arith::accel_m(
        if p.on_ground && intent.jump_pressed {
            -crate::player::jump_speed_m(p)
        } else {
            p.vy
        },
        GRAVITY_ACCEL as int,
        dt,
    );
    let cx = crate::arith::advance_m(
        p.x,
        crate::intent::move_axis_m(intent) * crate::player::move_speed_m(p),
        dt,
    );
    let cy = crate::arith::advance_m(p.y, vy1, dt);
    let cand = RectM { x: cx, y: cy, w: PLAYER_WIDTH as int, h: PLAYER_HEIGHT as int };
    lemma_landing_top_order_independent(plats_a, plats_b, cand, p.y + PLAYER_HEIGHT);
}

/// The same resting property for the other grounded-capable body: a live
/// enemy with zero velocity resting exactly on a platform, inside its patrol
/// range, lands back at the same resting height after one tick.
pub proof fn law_enemy_rest_on_platform(e: EnemyM, dt: int, plats: Seq<RectM>, k: int)
    requires
        e.wf(),
        rects_wf(plats),
        0 <= dt <= MAX_DT_MS,
        0 <= k < plats.len(),
        e.alive,
        e.vx == 0,
        e.vy == 0,
        e.y + crate::consts::ENEMY_HEIGHT == plats[k].y,
        e.x < plats[k].x + plats[k].w,
        plats[k].x < e.x + crate::consts::ENEMY_WIDTH,
        e.gravity * dt * dt <= plats[k].h,
        e.left_bound <= e.x <= e.right_bound,
        -COORD_LIMIT <= e.x <= COORD_LIMIT,
        -COORD_LIMIT <= e.y,
    ensures
        crate::enemy::enemy_update_m(e, dt, plats).y == e.y,
        crate::enemy::enemy_update_m(e, dt, plats).x == e.x,
        crate::enemy::enemy_update_m(e, dt, plats).vy == 0,
{
    let eh = crate::consts::ENEMY_HEIGHT as int;
    assert(plats[k].wf());
    assert(0 * dt == 0) by (nonlinear_arith);
    let x0 = crate::arith::advance_m(e.x, 0, dt);
    assert(x0 == e.x);
    let vy1 = crate::arith::accel_m(0, e.gravity, dt);
    crate::arith::lemma_mul_range(e.gravity, dt, crate::consts::ACCEL_LIMIT as int, MAX_DT_MS as int);
    assert(vy1 == e.gravity * dt);
    if vy1 == 0 {
        assert(crate::enemy::enemy_update_m(e, dt, plats).y == e.y);
    } else {
        let pen = vy1 * dt;
        assert(pen == e.gravity * dt * dt) by (nonlinear_arith)
            requires
                vy1 == e.gravity * dt,
                pen == vy1 * dt,
        ;
        assert(dt > 0) by (nonlinear_arith)
            requires
                vy1 == e.gravity * dt,
                vy1 != 0,
                dt >= 0,
        ;
        assert(pen > 0) by (nonlinear_arith)
            requires
                pen == vy1 * dt,
                vy1 > 0,
                dt > 0,
        ;
        crate::arith::lemma_mul_range(vy1, dt, VEL_LIMIT as int, MAX_DT_MS as int);
        let cy = crate::arith::advance_m(e.y, vy1, dt);
        let cand = RectM {
            x: e.x,
            y: cy,
            w: crate::consts::ENEMY_WIDTH as int,
            h: crate::consts::ENEMY_HEIGHT as int,
        };
        let ob = e.y + eh;
        assert(cy > e.y);
        assert(cy <= e.y + pen);
        assert(cand.overlaps(plats[k]));
        assert(can_land_m(plats[k], cand, ob));
        lemma_landing_top_props(plats, cand, ob);
        let land = landing_top_m(plats, cand, ob);
        assert(land is Some);
        assert(land->0 <= plats[k].y);
        assert(land->0 >= ob) by {
            let j = choose|j: int|
                0 <= j < plats.len() && can_land_m(#[trigger] plats[j], cand, ob) && plats[j].y
                    == land->0;
        }
        assert(land->0 == plats[k].y);
    }
}

/// Landing order-independence for the other grounded-capable body: an enemy
/// resolves the same over two platform lists holding the same platforms.
pub proof fn law_enemy_landing_order_independent(
    e: EnemyM,
    dt: int,
    plats_a: Seq<RectM>,
    plats_b: Seq<RectM>,
)
    requires
        forall|r: RectM| plats_a.contains(r) <==> plats_b.contains(r),
    ensures
        crate::enemy::enemy_update_m(e, dt, plats_a) == crate::enemy::enemy_update_m(
            e,
            dt,
            plats_b,
        ),
{
    if e.alive {
        let x0 = crate::arith::advance_m(e.x, e.vx, dt);
        let x1 = if x0 < e.left_bound {
            e.left_bound
        } else {
            x0
        };
        let x2 = if x1 > e.right_bound {
            e.right_bound
        } else {
            x1
        };
        let vy1 = crate::arith::accel_m(e.vy, e.gravity, dt);
        let cy = crate::arith::advance_m(e.y, vy1, dt);
        let cand = RectM {
            x: x2,
            y: cy,
            w: crate::consts::ENEMY_WIDTH as int,
            h: crate::consts::ENEMY_HEIGHT as int,
        };
        lemma_landing_top_order_independent(
            plats_a,
            plats_b,
            cand,
            e.y + crate::consts::ENEMY_HEIGHT,
        );
    }
}

/// Among several platforms a body could land on, the resolved top is the
/// highest valid one: it is itself a valid landing top and no valid platform
/// has a higher top.
pub proof fn law_landing_picks_highest(plats: Seq<RectM>, cand: RectM, old_bottom: int, k: int)
    requires
        0 <= k < plats.len(),
        can_land_m(plats[k], cand, old_bottom),
    ensures
        landing_top_m(plats, cand, old_bottom) is Some,
        landing_top_m(plats, cand, old_bottom)->0 <= plats[k].y,
        exists|j: int|
            0 <= j < plats.len() && can_land_m(#[trigger] plats[j], cand, old_bottom) && plats[j].y
                == landing_top_m(plats, cand, old_bottom)->0,
{
    lemma_landing_top_props(plats, cand, old_bottom);
}

// ---------------------------------------------------------------------------
// Stomp and damage precedence
// ---------------------------------------------------------------------------

/// The first enemy at or after index `i` meeting the stomp condition.
pub open spec fn first_stomp_from(es: Seq<EnemyM>, p: PlayerM, i: int) -> Option<int>
    decreases es.len() - i when 0 <= i <= es.len()
{
    if i >= es.len() {
        None
    } else if stomp_cond_m(es[i], p) {
        Some(i)
    } else {
        first_stomp_from(es, p, i + 1)
    }
}

pub proof fn lemma_first_stomp_from(es: Seq<EnemyM>, p: PlayerM, i: int)
    requires
        0 <= i <= es.len(),
    ensures
        match first_stomp_from(es, p, i) {
            Some(j) => i <= j < es.len() && stomp_cond_m(es[j], p) && (forall|k: int|
                i <= k < j ==> !#[trigger] stomp_cond_m(es[k], p)),
            None => forall|k: int| i <= k < es.len() ==> !#[trigger] stomp_cond_m(es[k], p),
        },
    decreases es.len() - i,
{
    if i < es.len() && !stomp_cond_m(es[i], p) {
        lemma_first_stomp_from(es, p, i + 1);
    }
}

/// A player moving upward (or not falling) stomps nothing.
pub proof fn lemma_stomp_needs_falling(es: Seq<EnemyM>, p: PlayerM, i: int)
    requires
        0 <= i <= es.len(),
        p.vy <= 0,
    ensures
        stomp_from(es, p, i) == (es, p, false),
    decreases es.len() - i,
{
    if i < es.len() {
        assert(!stomp_cond_m(es[i], p));
        lemma_stomp_needs_falling(es, p, i + 1);
    }
}

/// What the stomp pass does, in closed form: nothing when no enemy meets the
/// stomp condition; otherwise exactly the first such enemy dies and the
/// player takes exactly one bounce and one reward, because the bounce makes
/// the player move upward and so ends all further stomps this tick.
pub proof fn lemma_stomp_shape(es: Seq<EnemyM>, p: PlayerM, i: int)
    requires
        0 <= i <= es.len(),
    ensures
        match first_stomp_from(es, p, i) {
            Some(j) => stomp_from(es, p, i) == (
                es.update(j, kill_enemy_m(es[j])),
                stomp_player_m(p),
                true,
            ),
            None => stomp_from(es, p, i) == (es, p, false),
        },
    decreases es.len() - i,
{
    if i < es.len() {
        if stomp_cond_m(es[i], p) {
            assert(first_stomp_from(es, p, i) == Some(i));
            assert(stomp_player_m(p).vy <= 0);
            lemma_stomp_needs_falling(
                es.update(i, kill_enemy_m(es[i])),
                stomp_player_m(p),
                i + 1,
            );
        } else {
            lemma_stomp_shape(es, p, i + 1);
        }
    }
}

/// Stomp precedence: in a tick where the player meets the stomp condition
/// against some enemy — even while also overlapping hazardous enemies — an
/// enemy dies, the score rises by exactly the stomp reward, and the player's
/// health and position are untouched.
pub proof fn law_stomp_precedence(es: Seq<EnemyM>, p: PlayerM, k: int, sx: int, sy: int)
    requires
        0 <= k < es.len(),
        stomp_cond_m(es[k], p),
        p.score + SCORE_STOMP <= SCORE_CAP,
        0 <= p.score,
    ensures
        ({
            let r = player_enemy_m(es, p, sx, sy);
            &&& r.1.health == p.health
            &&& r.1.alive == p.alive
            &&& r.1.x == p.x
            &&& r.1.y == p.y
            &&& r.1.score == p.score + SCORE_STOMP
            &&& exists|j: int| 0 <= j < es.len() && (#[trigger] es[j]).alive && !r.0[j].alive
        }),
{
    lemma_first_stomp_from(es, p, 0);
    lemma_stomp_shape(es, p, 0);
    let j = first_stomp_from(es, p, 0)->0;
    assert(first_stomp_from(es, p, 0) is Some);
    let r = player_enemy_m(es, p, sx, sy);
    assert(r.1 == stomp_player_m(p));
    assert(es[j].alive && !r.0[j].alive);
}

/// Damage precedence: with no valid stomp geometry anywhere, no running
/// invincibility, and some live enemy overlapping the player, the player
/// loses exactly one health point and is repositioned to the level start,
/// while score and enemies are untouched.
pub proof fn law_damage_on_overlap(es: Seq<EnemyM>, p: PlayerM, k: int, sx: int, sy: int)
    requires
        0 <= k < es.len(),
        forall|j: int| 0 <= j < es.len() ==> !#[trigger] stomp_cond_m(es[j], p),
        p.invincible_ms == 0,
        es[k].alive,
        p.rect().overlaps(es[k].rect()),
    ensures
        ({
            let r = player_enemy_m(es, p, sx, sy);
            &&& r.1.health == p.health - 1
            &&& r.1.alive == (p.health - 1 > 0)
            &&& r.1.x == sx
            &&& r.1.y == sy
            &&& r.1.score == p.score
            &&& r.0 == es
        }),
{
    lemma_first_stomp_from(es, p, 0);
    lemma_stomp_shape(es, p, 0);
    assert(first_stomp_from(es, p, 0) is None);
    lemma_first_overlap_from(p.rect(), es, 0);
    assert(first_overlap_from(p.rect(), es, 0) is Some);
}

/// Invincibility suppresses damage: while the invincibility countdown runs
/// and no stomp happens, overlapping a hazardous enemy changes nothing about
/// the player — no health loss and no position reset.
pub proof fn law_invincibility_suppresses_damage(es: Seq<EnemyM>, p: PlayerM, sx: int, sy: int)
    requires
        forall|j: int| 0 <= j < es.len() ==> !#[trigger] stomp_cond_m(es[j], p),
        p.invincible_ms > 0,
    ensures
        player_enemy_m(es, p, sx, sy).1 == p,
        player_enemy_m(es, p, sx, sy).0 == es,
{
    lemma_first_stomp_from(es, p, 0);
    lemma_stomp_shape(es, p, 0);
    assert(first_stomp_from(es, p, 0) is None);
}

// ---------------------------------------------------------------------------
// One-shot collectibles and flat timers
// ---------------------------------------------------------------------------

/// Collected bonuses are inert: when every bonus the player touches is
/// already collected, the collection pass changes nothing — no score, no
/// flag.
pub proof fn law_bonus_one_shot(bs: Seq<BonusM>, p: PlayerM, i: int)
    requires
        0 <= i <= bs.len(),
        forall|j: int|
            0 <= j < bs.len() ==> (#[trigger] bs[j]).collected || !p.rect().overlaps(bs[j].rect()),
    ensures
        bonuses_from(bs, p, i) == (bs, p),
    decreases bs.len() - i,
{
    if i < bs.len() {
        law_bonus_one_shot(bs, p, i + 1);
    }
}

/// Collected power-ups are inert: when every power-up the player touches is
/// already collected, the collection pass changes nothing — no effect, no
/// timer.
pub proof fn law_powerup_one_shot(ps: Seq<PowerUpM>, p: PlayerM, i: int)
    requires
        0 <= i <= ps.len(),
        forall|j: int|
            0 <= j < ps.len() ==> (#[trigger] ps[j]).collected || !p.rect().overlaps(ps[j].rect()),
    ensures
        powerups_from(ps, p, i) == (ps, p),
    decreases ps.len() - i,
{
    if i < ps.len() {
        law_powerup_one_shot(ps, p, i + 1);
    }
}

/// Power-up timers are flat-reset, never additive: whatever a status
/// countdown holds when the matching power-up is collected, it restarts at
/// exactly the fixed duration, and the other two countdowns are untouched.
pub proof fn law_powerup_flat_reset(p: PlayerM)
    ensures
        apply_powerup_m(PowerUpKind::Speed, p).speed_ms == POWERUP_DURATION_MS,
        apply_powerup_m(PowerUpKind::Speed, p).invincible_ms == p.invincible_ms,
        apply_powerup_m(PowerUpKind::Speed, p).high_jump_ms == p.high_jump_ms,
        apply_powerup_m(PowerUpKind::Invincibility, p).invincible_ms == POWERUP_DURATION_MS,
        apply_powerup_m(PowerUpKind::HighJump, p).high_jump_ms == POWERUP_DURATION_MS,
        apply_powerup_m(PowerUpKind::Speed, p).score == p.score,
        apply_powerup_m(PowerUpKind::Speed, p).health == p.health,
{
}

// ---------------------------------------------------------------------------
// Level progression and the won state
// ---------------------------------------------------------------------------

/// A level transition loads the next level's template rosters, repositions
/// the player at its start and zeroes all three status countdowns — but
/// keeps score and health.
pub proof fn law_level_transition(s: SessionM)
    requires
        !s.won,
        s.player.x > s.levels[s.level_index].goal_x,
        0 <= s.level_index,
        s.level_index + 1 < s.levels.len(),
    ensures
        ({
            let r = progress_m(s);
            let nl = s.levels[s.level_index + 1];
            &&& r.level_index == s.level_index + 1
            &&& !r.won
            &&& r.enemies == nl.enemies
            &&& r.bonuses == nl.bonuses
            &&& r.powerups == nl.powerups
            &&& r.bullets == Seq::<BulletM>::empty()
            &&& r.player.speed_ms == 0
            &&& r.player.invincible_ms == 0
            &&& r.player.high_jump_ms == 0
            &&& r.player.score == s.player.score
            &&& r.player.health == s.player.health
            &&& r.player.x == nl.start_x
            &&& r.player.y == nl.start_y
        }),
{
}

/// Crossing the final level's goal enters the terminal won state.
pub proof fn law_final_goal_wins(s: SessionM)
    requires
        s.player.x > s.levels[s.level_index].goal_x,
        s.level_index + 1 >= s.levels.len(),
    ensures
        progress_m(s).won,
        progress_m(s).player == s.player,
{
}

/// The won state is terminal: a tick without a restart action changes
/// nothing at all — in particular, further goal-crossing checks are no-ops.
pub proof fn law_won_is_terminal(s: SessionM, intent: Intent, dt_raw: int)
    requires
        s.won,
        !intent.restart_pressed,
    ensures
        tick_m(s, intent, dt_raw) == s,
{
}

/// While dead or won, a tick with the restart action restarts the session:
/// level zero after a win, the current level after a death.
pub proof fn law_restart_action(s: SessionM, intent: Intent, dt_raw: int)
    requires
        s.won || !s.player.alive,
        intent.restart_pressed,
    ensures
        tick_m(s, intent, dt_raw) == crate::session::restart_m(s),
{
}

// ---------------------------------------------------------------------------
// Bullets
// ---------------------------------------------------------------------------

/// A bullet kills at most one enemy: even overlapping several live enemies
/// in one tick, exactly the first dies, every other enemy is untouched, the
/// bullet dies, and the score rises by exactly one kill's worth.
pub proof fn law_bullet_single_kill(b: BulletM, es: Seq<EnemyM>, score: int, k1: int, k2: int)
    requires
        b.alive,
        0 <= k1 < es.len(),
        0 <= k2 < es.len(),
        k1 != k2,
        es[k1].alive,
        es[k2].alive,
        b.rect().overlaps(es[k1].rect()),
        b.rect().overlaps(es[k2].rect()),
        0 <= score,
        score + SCORE_ENEMY_SHOT <= SCORE_CAP,
    ensures
        ({
            let r = hits_from(seq![b], es, score, 0);
            let j = first_overlap_from(b.rect(), es, 0)->0;
            &&& 0 <= j < es.len()
            &&& es[j].alive
            &&& !r.1[j].alive
            &&& forall|m: int| 0 <= m < es.len() && m != j ==> r.1[m] == es[m]
            &&& !r.0[0].alive
            &&& r.2 == score + SCORE_ENEMY_SHOT
        }),
{
    lemma_first_overlap_from(b.rect(), es, 0);
    assert(first_overlap_from(b.rect(), es, 0) is Some);
    let j = first_overlap_from(b.rect(), es, 0)->0;
    let bs = seq![b];
    assert(bs[0] == b);
    let r = hits_from(bs, es, score, 0);
    assert(r == hits_from(
        bs.update(0, BulletM { alive: false, ..b }),
        es.update(j, kill_enemy_m(es[j])),
        score_add_m(score, SCORE_ENEMY_SHOT as int),
        1,
    ));
}

} // verus!

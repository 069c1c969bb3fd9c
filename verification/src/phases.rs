//! The fixed pipeline of interaction phases one simulation tick runs:
//! bullet advance, enemy advance, bullet-vs-enemy hits, stomp-before-damage
//! player-vs-enemy resolution, bonus collection, power-up collection, and
//! dead-bullet removal. Each phase is a named function with an exact model.

use vstd::prelude::*;
use crate::arith::{score_add, score_add_m};
use crate::bullet::{bullet_update_m, bullets_m, bullets_wf, Bullet, BulletM};
use crate::consts::{
    BULLET_HEIGHT, BULLET_WIDTH, COORD_LIMIT, MAX_DT_MS, MAX_HEALTH, PLAYER_HEIGHT, POS_LIMIT,
    POWERUP_DURATION_MS, SCORE_BONUS, SCORE_CAP, SCORE_ENEMY_SHOT, SCORE_STOMP,
    STOMP_BOUNCE_SPEED, STOMP_FUDGE,
};
use crate::enemy::{enemies_m, enemies_wf, enemy_update_m, Enemy, EnemyM};
use crate::geom::{rects_m, rects_wf, Rect, RectM};
use crate::pickups::{
    bonuses_m, bonuses_wf, powerups_m, powerups_wf, Bonus, BonusM, PowerUp, PowerUpKind, PowerUpM,
};
use crate::player::{Player, PlayerM};

verus! {

// ---------------------------------------------------------------------------
// Bullet and enemy advance
// ---------------------------------------------------------------------------

/// All bullets advanced by `dt`.
pub open spec fn bullets_update_m(bs: Seq<BulletM>, dt: int) -> Seq<BulletM> {
    bs.map_values(|b: BulletM| bullet_update_m(b, dt))
}

/// Advance every bullet in the roster.
pub fn update_bullets(bullets: &mut Vec<Bullet>, dt: i64)
    requires
        bullets_wf(bullets_m(old(bullets)@)),
        0 <= dt <= MAX_DT_MS,
    ensures
        bullets_m(final(bullets)@) == bullets_update_m(bullets_m(old(bullets)@), dt as int),
        bullets_wf(bullets_m(final(bullets)@)),
{
    let ghost bs0 = bullets_m(old(bullets)@);
    let mut i: usize = 0;
    while i < bullets.len()
        invariant
            0 <= i <= bullets@.len(),
            bullets@.len() == bs0.len(),
            bs0 == bullets_m(old(bullets)@),
            bullets_wf(bs0),
            0 <= dt <= MAX_DT_MS,
            forall|j: int| 0 <= j < i ==> bullets_m(bullets@)[j] == bullet_update_m(bs0[j], dt as int),
            forall|j: int| i <= j < bs0.len() ==> bullets_m(bullets@)[j] == bs0[j],
            bullets_wf(bullets_m(bullets@)),
        decreases bullets@.len() - i,
    {
        let mut b = bullets[i];
        proof {
            assert(bullets_m(bullets@)[i as int] == b@);
            assert(bullets_m(bullets@)[i as int].wf());
        }
        let ghost prev = bullets@;
        b.update(dt);
        bullets.set(i, b);
        proof {
            assert forall|j: int| 0 <= j < i + 1 implies bullets_m(bullets@)[j] == bullet_update_m(
                bs0[j],
                dt as int,
            ) by {
                if j == i {
                    assert(bullets_m(bullets@)[j] == b@);
                } else {
                    assert(bullets_m(bullets@)[j] == bullets_m(prev)[j]);
                }
            }
            assert forall|j: int| 0 <= j < bullets@.len() implies (#[trigger] bullets_m(
                bullets@,
            )[j]).wf() by {
                if j == i {
                    assert(bullets_m(bullets@)[j] == b@);
                } else {
                    assert(bullets_m(bullets@)[j] == bullets_m(prev)[j]);
                }
            }
        }
        i = i + 1;
    }
    proof {
        assert(bullets_m(bullets@) =~= bullets_update_m(bs0, dt as int));
    }
}

/// All enemies advanced by `dt` over the given platforms.
pub open spec fn enemies_update_m(es: Seq<EnemyM>, dt: int, plats: Seq<RectM>) -> Seq<EnemyM> {
    es.map_values(|e: EnemyM| enemy_update_m(e, dt, plats))
}

/// Advance every enemy in the roster; dead enemies are skipped inside
/// `Enemy::update`.
pub fn update_enemies(enemies: &mut Vec<Enemy>, dt: i64, platforms: &Vec<Rect>)
    requires
        enemies_wf(enemies_m(old(enemies)@)),
        0 <= dt <= MAX_DT_MS,
        rects_wf(rects_m(platforms@)),
    ensures
        enemies_m(final(enemies)@) == enemies_update_m(
            enemies_m(old(enemies)@),
            dt as int,
            rects_m(platforms@),
        ),
        enemies_wf(enemies_m(final(enemies)@)),
{
    let ghost es0 = enemies_m(old(enemies)@);
    let ghost pm = rects_m(platforms@);
    let mut i: usize = 0;
    while i < enemies.len()
        invariant
            0 <= i <= enemies@.len(),
            enemies@.len() == es0.len(),
            es0 == enemies_m(old(enemies)@),
            pm == rects_m(platforms@),
            enemies_wf(es0),
            0 <= dt <= MAX_DT_MS,
            rects_wf(pm),
            forall|j: int| 0 <= j < i ==> enemies_m(enemies@)[j] == enemy_update_m(es0[j], dt as int, pm),
            forall|j: int| i <= j < es0.len() ==> enemies_m(enemies@)[j] == es0[j],
            enemies_wf(enemies_m(enemies@)),
        decreases enemies@.len() - i,
    {
        let mut e = enemies[i];
        proof {
            assert(enemies_m(enemies@)[i as int] == e@);
            assert(enemies_m(enemies@)[i as int].wf());
        }
        let ghost prev = enemies@;
        e.update(dt, platforms);
        enemies.set(i, e);
        proof {
            assert forall|j: int| 0 <= j < i + 1 implies enemies_m(enemies@)[j] == enemy_update_m(
                es0[j],
                dt as int,
                pm,
            ) by {
                if j == i {
                    assert(enemies_m(enemies@)[j] == e@);
                } else {
                    assert(enemies_m(enemies@)[j] == enemies_m(prev)[j]);
                }
            }
            assert forall|j: int| 0 <= j < enemies@.len() implies (#[trigger] enemies_m(
                enemies@,
            )[j]).wf() by {
                if j == i {
                    assert(enemies_m(enemies@)[j] == e@);
                } else {
                    assert(enemies_m(enemies@)[j] == enemies_m(prev)[j]);
                }
            }
        }
        i = i + 1;
    }
    proof {
        assert(enemies_m(enemies@) =~= enemies_update_m(es0, dt as int, pm));
    }
}

// ---------------------------------------------------------------------------
// Finding the first live enemy a rectangle penetrates
// ---------------------------------------------------------------------------

/// The first enemy at or after index `i` that is alive and overlaps the
/// probe rectangle.
pub open spec fn first_overlap_from(r: RectM, es: Seq<EnemyM>, i: int) -> Option<int>
    decreases es.len() - i when 0 <= i <= es.len()
{
    if i >= es.len() {
        None
    } else if es[i].alive && r.overlaps(es[i].rect()) {
        Some(i)
    } else {
        first_overlap_from(r, es, i + 1)
    }
}

pub proof fn lemma_first_overlap_from(r: RectM, es: Seq<EnemyM>, i: int)
    requires
        0 <= i <= es.len(),
    ensures
        match first_overlap_from(r, es, i) {
            Some(j) => i <= j < es.len() && es[j].alive && r.overlaps(es[j].rect()) && (forall|
                k: int,
            |
                i <= k < j ==> !((#[trigger] es[k]).alive && r.overlaps(es[k].rect()))),
            None => forall|k: int|
                i <= k < es.len() ==> !((#[trigger] es[k]).alive && r.overlaps(es[k].rect())),
        },
    decreases es.len() - i,
{
    if i < es.len() && !(es[i].alive && r.overlaps(es[i].rect())) {
        lemma_first_overlap_from(r, es, i + 1);
    }
}

pub open spec fn opt_usize_to_int(o: Option<usize>) -> Option<int> {
    match o {
        Some(j) => Some(j as int),
        None => None,
    }
}

/// Scan the roster for the first live enemy the probe rectangle penetrates.
pub fn find_first_overlap(rect: &Rect, enemies: &Vec<Enemy>) -> (r: Option<usize>)
    requires
        enemies_wf(enemies_m(enemies@)),
        -POS_LIMIT <= rect.x <= POS_LIMIT,
        -POS_LIMIT <= rect.y <= POS_LIMIT,
        0 <= rect.w <= COORD_LIMIT,
        0 <= rect.h <= COORD_LIMIT,
    ensures
        opt_usize_to_int(r) == first_overlap_from(rect@, enemies_m(enemies@), 0),
        r is Some ==> r->0 < enemies@.len(),
{
    let ghost es = enemies_m(enemies@);
    let mut j: usize = 0;
    while j < enemies.len()
        invariant
            0 <= j <= enemies@.len(),
            es == enemies_m(enemies@),
            enemies_wf(es),
            -POS_LIMIT <= rect.x <= POS_LIMIT,
            -POS_LIMIT <= rect.y <= POS_LIMIT,
            0 <= rect.w <= COORD_LIMIT,
            0 <= rect.h <= COORD_LIMIT,
            forall|k: int| 0 <= k < j ==> !((#[trigger] es[k]).alive && rect@.overlaps(es[k].rect())),
        decreases enemies@.len() - j,
    {
        let e = enemies[j];
        proof {
            assert(es[j as int] == e@);
            assert(es[j as int].wf());
        }
        let erect = e.rect();
        if e.alive && rect.overlaps(&erect) {
            proof {
                lemma_first_overlap_from(rect@, es, 0);
                assert(first_overlap_from(rect@, es, 0) == Some(j as int));
            }
            return Some(j);
        }
        j = j + 1;
    }
    proof {
        lemma_first_overlap_from(rect@, es, 0);
    }
    None
}

// ---------------------------------------------------------------------------
// Bullet vs enemy
// ---------------------------------------------------------------------------

/// The enemy with its alive flag cleared.
pub open spec fn kill_enemy_m(e: EnemyM) -> EnemyM {
    EnemyM { alive: false, ..e }
}

/// Bullet-vs-enemy resolution from bullet index `i` on: each live bullet
/// kills at most the first live enemy it overlaps, both die, and each kill is
/// worth `SCORE_ENEMY_SHOT`.
pub open spec fn hits_from(bs: Seq<BulletM>, es: Seq<EnemyM>, score: int, i: int) -> (
    Seq<BulletM>,
    Seq<EnemyM>,
    int,
)
    decreases bs.len() - i when 0 <= i <= bs.len()
{
    if i >= bs.len() {
        (bs, es, score)
    } else {
        let b = bs[i];
        if b.alive {
            match first_overlap_from(b.rect(), es, 0) {
                Some(j) => hits_from(
                    bs.update(i, BulletM { alive: false, ..b }),
                    es.update(j, kill_enemy_m(es[j])),
                    score_add_m(score, SCORE_ENEMY_SHOT as int),
                    i + 1,
                ),
                None => hits_from(bs, es, score, i + 1),
            }
        } else {
            hits_from(bs, es, score, i + 1)
        }
    }
}

/// Run the bullet-vs-enemy phase, returning the score after all kills.
pub fn bullet_enemy_phase(
    bullets: &mut Vec<Bullet>,
    enemies: &mut Vec<Enemy>,
    score: i64,
) -> (new_score: i64)
    requires
        bullets_wf(bullets_m(old(bullets)@)),
        enemies_wf(enemies_m(old(enemies)@)),
        0 <= score <= SCORE_CAP,
    ensures
        (bullets_m(final(bullets)@), enemies_m(final(enemies)@), new_score as int) == hits_from(
            bullets_m(old(bullets)@),
            enemies_m(old(enemies)@),
            score as int,
            0,
        ),
        bullets_wf(bullets_m(final(bullets)@)),
        enemies_wf(enemies_m(final(enemies)@)),
        0 <= new_score <= SCORE_CAP,
{
    let ghost bs0 = bullets_m(old(bullets)@);
    let ghost es0 = enemies_m(old(enemies)@);
    let ghost result = hits_from(bs0, es0, score as int, 0);
    let mut sc = score;
    let mut i: usize = 0;
    while i < bullets.len()
        invariant
            0 <= i <= bullets@.len(),
            bullets@.len() == bs0.len(),
            bullets_wf(bullets_m(bullets@)),
            enemies_wf(enemies_m(enemies@)),
            0 <= sc <= SCORE_CAP,
            result == hits_from(bs0, es0, score as int, 0),
            result == hits_from(bullets_m(bullets@), enemies_m(enemies@), sc as int, i as int),
        decreases bullets@.len() - i,
    {
        let ghost bs_cur = bullets_m(bullets@);
        let ghost es_cur = enemies_m(enemies@);
        let b = bullets[i];
        proof {
            assert(bs_cur[i as int] == b@);
            assert(bs_cur[i as int].wf());
        }
        if b.alive {
            let brect = Rect { x: b.x, y: b.y, w: BULLET_WIDTH, h: BULLET_HEIGHT };
            assert(brect@ == bs_cur[i as int].rect());
            match find_first_overlap(&brect, enemies) {
                Some(j) => {
                    let mut e2 = enemies[j];
                    e2.alive = false;
                    enemies.set(j, e2);
                    let mut b2 = b;
                    b2.alive = false;
                    bullets.set(i, b2);
                    sc = score_add(sc, SCORE_ENEMY_SHOT);
                    proof {
                        assert(enemies_m(enemies@) =~= es_cur.update(
                            j as int,
                            kill_enemy_m(es_cur[j as int]),
                        ));
                        assert(bullets_m(bullets@) =~= bs_cur.update(
                            i as int,
                            (BulletM { alive: false, ..bs_cur[i as int] }),
                        ));
                    }
                },
                None => {},
            }
        }
        i = i + 1;
    }
    sc
}

// ---------------------------------------------------------------------------
// Player vs enemy: stomp before damage
// ---------------------------------------------------------------------------

/// The geometric and kinematic stomp condition against one enemy: the enemy
/// is alive and stompable, the player's rectangle penetrates it while moving
/// downward, and the player's previous-frame bottom edge was above the
/// enemy's top plus the fudge margin.
pub open spec fn stomp_cond_m(e: EnemyM, p: PlayerM) -> bool {
    &&& e.alive
    &&& e.can_be_jumped_on
    &&& p.rect().overlaps(e.rect())
    &&& p.vy > 0
    &&& p.prev_y + PLAYER_HEIGHT <= e.y + STOMP_FUDGE
}

/// The player after one stomp: a fixed upward bounce and the stomp reward.
pub open spec fn stomp_player_m(p: PlayerM) -> PlayerM {
    PlayerM {
        vy: -(STOMP_BOUNCE_SPEED as int),
        score: score_add_m(p.score, SCORE_STOMP as int),
        ..p
    }
}

/// Stomp resolution from enemy index `i` on: every enemy meeting the stomp
/// condition dies and bounces the player. Since the bounce makes the player
/// move upward, at most one enemy can be stomped per tick.
pub open spec fn stomp_from(es: Seq<EnemyM>, p: PlayerM, i: int) -> (Seq<EnemyM>, PlayerM, bool)
    decreases es.len() - i when 0 <= i <= es.len()
{
    if i >= es.len() {
        (es, p, false)
    } else if stomp_cond_m(es[i], p) {
        let r = stomp_from(es.update(i, kill_enemy_m(es[i])), stomp_player_m(p), i + 1);
        (r.0, r.1, true)
    } else {
        stomp_from(es, p, i + 1)
    }
}

/// The player after taking one hit: one health lost (dying at zero) and a
/// reposition to the level start. Score and status timers are untouched.
pub open spec fn damage_player_m(p: PlayerM, sx: int, sy: int) -> PlayerM {
    PlayerM {
        health: p.health - 1,
        alive: p.health - 1 > 0,
        x: sx,
        y: sy,
        vx: 0,
        vy: 0,
        prev_y: sy,
        ..p
    }
}

/// The whole player-vs-enemy step: stomps are resolved against every enemy
/// first; only if no stomp happened and invincibility is not running does the
/// first remaining overlap deal damage.
pub open spec fn player_enemy_m(es: Seq<EnemyM>, p: PlayerM, sx: int, sy: int) -> (
    Seq<EnemyM>,
    PlayerM,
) {
    let r = stomp_from(es, p, 0);
    if !r.2 && r.1.invincible_ms <= 0 && first_overlap_from(r.1.rect(), r.0, 0) is Some {
        (r.0, damage_player_m(r.1, sx, sy))
    } else {
        (r.0, r.1)
    }
}

/// Run the player-vs-enemy phase: all stomps, then at most one damage hit.
pub fn player_enemy_phase(
    enemies: &mut Vec<Enemy>,
    player: &mut Player,
    start_x: i64,
    start_y: i64,
) -> (stomped: bool)
    requires
        enemies_wf(enemies_m(old(enemies)@)),
        old(player).wf(),
        old(player)@.alive,
        -COORD_LIMIT <= start_x <= COORD_LIMIT,
        -COORD_LIMIT <= start_y <= COORD_LIMIT,
    ensures
        (enemies_m(final(enemies)@), final(player)@) == player_enemy_m(
            enemies_m(old(enemies)@),
            old(player)@,
            start_x as int,
            start_y as int,
        ),
        stomped == stomp_from(enemies_m(old(enemies)@), old(player)@, 0).2,
        enemies_wf(enemies_m(final(enemies)@)),
        final(player).wf(),
{
    let ghost es0 = enemies_m(old(enemies)@);
    let ghost p0 = old(player)@;
    let ghost sresult = stomp_from(es0, p0, 0);
    let mut stomped = false;
    let mut i: usize = 0;
    while i < enemies.len()
        invariant
            0 <= i <= enemies@.len(),
            enemies@.len() == es0.len(),
            enemies_wf(enemies_m(enemies@)),
            player.wf(),
            player@.alive == p0.alive,
            player@.invincible_ms == p0.invincible_ms,
            sresult == stomp_from(es0, p0, 0),
            sresult.0 == stomp_from(enemies_m(enemies@), player@, i as int).0,
            sresult.1 == stomp_from(enemies_m(enemies@), player@, i as int).1,
            sresult.2 == (stomped || stomp_from(enemies_m(enemies@), player@, i as int).2),
        decreases enemies@.len() - i,
    {
        let ghost es_cur = enemies_m(enemies@);
        let ghost p_cur = player@;
        let e = enemies[i];
        proof {
            assert(es_cur[i as int] == e@);
            assert(es_cur[i as int].wf());
        }
        let prect = player.rect();
        let erect = e.rect();
        let colliding = prect.overlaps(&erect);
        let was_above = player.prev_y + PLAYER_HEIGHT <= e.y + STOMP_FUDGE;
        if e.alive && e.can_be_jumped_on && colliding && player.vy > 0 && was_above {
            assert(stomp_cond_m(es_cur[i as int], p_cur));
            let mut e2 = e;
            e2.alive = false;
            enemies.set(i, e2);
            player.vy = -STOMP_BOUNCE_SPEED;
            player.score = score_add(player.score, SCORE_STOMP);
            stomped = true;
            proof {
                assert(enemies_m(enemies@) =~= es_cur.update(
                    i as int,
                    kill_enemy_m(es_cur[i as int]),
                ));
                assert(player@ == stomp_player_m(p_cur));
            }
        } else {
            assert(!stomp_cond_m(es_cur[i as int], p_cur));
        }
        i = i + 1;
    }
    proof {
        assert(enemies_m(enemies@) == sresult.0);
        assert(player@ == sresult.1);
        assert(stomped == sresult.2);
    }
    if !stomped && !player.invincible.is_active() {
        let ghost es1 = enemies_m(enemies@);
        let ghost p1 = player@;
        let prect = player.rect();
        match find_first_overlap(&prect, enemies) {
            Some(_) => {
                player.health = player.health - 1;
                if player.health <= 0 {
                    player.alive = false;
                }
                player.reset(start_x, start_y);
                proof {
                    assert(player@ == damage_player_m(p1, start_x as int, start_y as int));
                }
            },
            None => {},
        }
    }
    stomped
}

// ---------------------------------------------------------------------------
// Bonuses and power-ups
// ---------------------------------------------------------------------------

/// Bonus collection from index `i` on: every uncollected bonus the player's
/// rectangle penetrates is collected for `SCORE_BONUS` points.
pub open spec fn bonuses_from(bs: Seq<BonusM>, p: PlayerM, i: int) -> (Seq<BonusM>, PlayerM)
    decreases bs.len() - i when 0 <= i <= bs.len()
{
    if i >= bs.len() {
        (bs, p)
    } else if !bs[i].collected && p.rect().overlaps(bs[i].rect()) {
        bonuses_from(
            bs.update(i, BonusM { collected: true, ..bs[i] }),
            PlayerM { score: score_add_m(p.score, SCORE_BONUS as int), ..p },
            i + 1,
        )
    } else {
        bonuses_from(bs, p, i + 1)
    }
}

/// Run the bonus-collection phase.
pub fn bonus_phase(bonuses: &mut Vec<Bonus>, player: &mut Player)
    requires
        bonuses_wf(bonuses_m(old(bonuses)@)),
        old(player).wf(),
    ensures
        (bonuses_m(final(bonuses)@), final(player)@) == bonuses_from(
            bonuses_m(old(bonuses)@),
            old(player)@,
            0,
        ),
        bonuses_wf(bonuses_m(final(bonuses)@)),
        final(player).wf(),
        final(player)@.alive == old(player)@.alive,
{
    let ghost bs0 = bonuses_m(old(bonuses)@);
    let ghost p0 = old(player)@;
    let ghost result = bonuses_from(bs0, p0, 0);
    let mut i: usize = 0;
    while i < bonuses.len()
        invariant
            0 <= i <= bonuses@.len(),
            bonuses@.len() == bs0.len(),
            bonuses_wf(bonuses_m(bonuses@)),
            player.wf(),
            player@.alive == p0.alive,
            result == bonuses_from(bs0, p0, 0),
            result == bonuses_from(bonuses_m(bonuses@), player@, i as int),
        decreases bonuses@.len() - i,
    {
        let ghost bs_cur = bonuses_m(bonuses@);
        let ghost p_cur = player@;
        let b = bonuses[i];
        proof {
            assert(bs_cur[i as int] == b@);
            assert(bs_cur[i as int].wf());
        }
        let prect = player.rect();
        let brect = b.rect();
        if !b.collected && prect.overlaps(&brect) {
            let mut b2 = b;
            b2.collected = true;
            bonuses.set(i, b2);
            player.score = score_add(player.score, SCORE_BONUS);
            proof {
                assert(bonuses_m(bonuses@) =~= bs_cur.update(
                    i as int,
                    (BonusM { collected: true, ..bs_cur[i as int] }),
                ));
                assert(player@ == (PlayerM {
                    score: score_add_m(p_cur.score, SCORE_BONUS as int),
                    ..p_cur
                }));
            }
        }
        i = i + 1;
    }
}

/// The player after one power-up effect: a heal capped at `MAX_HEALTH`, or a
/// flat reset of the matching status countdown.
pub open spec fn apply_powerup_m(kind: PowerUpKind, p: PlayerM) -> PlayerM {
    match kind {
        PowerUpKind::Health => PlayerM {
            health: if p.health + 1 > MAX_HEALTH {
                MAX_HEALTH as int
            } else {
                p.health + 1
            },
            ..p
        },
        PowerUpKind::Speed => PlayerM { speed_ms: POWERUP_DURATION_MS as int, ..p },
        PowerUpKind::Invincibility => PlayerM { invincible_ms: POWERUP_DURATION_MS as int, ..p },
        PowerUpKind::HighJump => PlayerM { high_jump_ms: POWERUP_DURATION_MS as int, ..p },
    }
}

/// Power-up collection from index `i` on.
pub open spec fn powerups_from(ps: Seq<PowerUpM>, p: PlayerM, i: int) -> (Seq<PowerUpM>, PlayerM)
    decreases ps.len() - i when 0 <= i <= ps.len()
{
    if i >= ps.len() {
        (ps, p)
    } else if !ps[i].collected && p.rect().overlaps(ps[i].rect()) {
        powerups_from(
            ps.update(i, PowerUpM { collected: true, ..ps[i] }),
            apply_powerup_m(ps[i].kind, p),
            i + 1,
        )
    } else {
        powerups_from(ps, p, i + 1)
    }
}

/// Run the power-up-collection phase.
pub fn powerup_phase(powerups: &mut Vec<PowerUp>, player: &mut Player)
    requires
        powerups_wf(powerups_m(old(powerups)@)),
        old(player).wf(),
        old(player)@.alive,
    ensures
        (powerups_m(final(powerups)@), final(player)@) == powerups_from(
            powerups_m(old(powerups)@),
            old(player)@,
            0,
        ),
        powerups_wf(powerups_m(final(powerups)@)),
        final(player).wf(),
        final(player)@.alive,
{
    let ghost ps0 = powerups_m(old(powerups)@);
    let ghost p0 = old(player)@;
    let ghost result = powerups_from(ps0, p0, 0);
    let mut i: usize = 0;
    while i < powerups.len()
        invariant
            0 <= i <= powerups@.len(),
            powerups@.len() == ps0.len(),
            powerups_wf(powerups_m(powerups@)),
            player.wf(),
            player@.alive,
            result == powerups_from(ps0, p0, 0),
            result == powerups_from(powerups_m(powerups@), player@, i as int),
        decreases powerups@.len() - i,
    {
        let ghost ps_cur = powerups_m(powerups@);
        let ghost p_cur = player@;
        let pu = powerups[i];
        proof {
            assert(ps_cur[i as int] == pu@);
            assert(ps_cur[i as int].wf());
        }
        let prect = player.rect();
        let purect = pu.rect();
        if !pu.collected && prect.overlaps(&purect) {
            let mut pu2 = pu;
            pu2.collected = true;
            powerups.set(i, pu2);
            match pu.kind {
                PowerUpKind::Health => {
                    if player.health + 1 > MAX_HEALTH {
                        player.health = MAX_HEALTH;
                    } else {
                        player.health = player.health + 1;
                    }
                },
                PowerUpKind::Speed => {
                    player.speed.set(POWERUP_DURATION_MS);
                },
                PowerUpKind::Invincibility => {
                    player.invincible.set(POWERUP_DURATION_MS);
                },
                PowerUpKind::HighJump => {
                    player.high_jump.set(POWERUP_DURATION_MS);
                },
            }
            proof {
                assert(powerups_m(powerups@) =~= ps_cur.update(
                    i as int,
                    (PowerUpM { collected: true, ..ps_cur[i as int] }),
                ));
                assert(player@ == apply_powerup_m(ps_cur[i as int].kind, p_cur));
            }
        }
        i = i + 1;
    }
}

// ---------------------------------------------------------------------------
// Dead-bullet removal
// ---------------------------------------------------------------------------

/// The roster with dead bullets removed, order preserved.
pub open spec fn filter_alive_m(bs: Seq<BulletM>) -> Seq<BulletM>
    decreases bs.len(),
{
    if bs.len() == 0 {
        bs
    } else {
        let rest = filter_alive_m(bs.drop_last());
        if bs.last().alive {
            rest.push(bs.last())
        } else {
            rest
        }
    }
}

/// Remove dead bullets, performed once per tick after all interactions.
pub fn retain_alive_bullets(bullets: &mut Vec<Bullet>)
    requires
        bullets_wf(bullets_m(old(bullets)@)),
    ensures
        bullets_m(final(bullets)@) == filter_alive_m(bullets_m(old(bullets)@)),
        bullets_wf(bullets_m(final(bullets)@)),
{
    let ghost bs0 = bullets_m(old(bullets)@);
    let mut out: Vec<Bullet> = Vec::new();
    let mut i: usize = 0;
    while i < bullets.len()
        invariant
            0 <= i <= bullets@.len(),
            bs0 == bullets_m(bullets@),
            bullets_wf(bs0),
            bullets_m(out@) == filter_alive_m(bs0.take(i as int)),
            bullets_wf(bullets_m(out@)),
        decreases bullets@.len() - i,
    {
        let b = bullets[i];
        proof {
            assert(bs0[i as int] == b@);
            assert(bs0.take(i + 1).drop_last() =~= bs0.take(i as int));
            assert(bs0.take(i + 1).last() == bs0[i as int]);
        }
        if b.alive {
            out.push(b);
            proof {
                assert(bullets_m(out@) =~= filter_alive_m(bs0.take(i as int)).push(b@));
            }
        }
        i = i + 1;
    }
    proof {
        assert(bs0.take(bullets@.len() as int) =~= bs0);
    }
    *bullets = out;
}

} // verus!

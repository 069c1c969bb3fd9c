//! Session-level tests: the tick pipeline, level progression, the terminal
//! states and the built-in registry.

use platformer_core::bullet::Bullet;
use platformer_core::enemy::Enemy;
use platformer_core::geom::Rect;
use platformer_core::intent::Intent;
use platformer_core::level::{make_levels, Level};
use platformer_core::pickups::{Bonus, PowerUp, PowerUpKind};
use platformer_core::session::{GameState, Session};
use platformer_core::timer::Countdown;

const U: i64 = 1_000_000;

fn idle() -> Intent {
    Intent {
        move_left: false,
        move_right: false,
        jump_pressed: false,
        jump_held: false,
        shoot_pressed: false,
        aim_up_held: false,
        restart_pressed: false,
    }
}

fn flat_level(goal_x: i64) -> Level {
    Level {
        platforms: vec![Rect { x: -10_000 * U, y: 400 * U, w: 20_000 * U, h: 40 * U }],
        enemies: Vec::new(),
        bonuses: Vec::new(),
        powerups: Vec::new(),
        start_x: 100 * U,
        start_y: 350 * U,
        goal_x,
    }
}

#[test]
fn new_session_loads_level_zero() {
    let s = Session::new(make_levels());
    assert_eq!(s.level_index, 0);
    assert_eq!(s.player.x, 100 * U);
    assert_eq!(s.player.y, 100 * U);
    assert_eq!(s.player.health, 3);
    assert_eq!(s.player.score, 0);
    assert!(s.player.alive);
    assert_eq!(s.enemies.len(), 2);
    assert_eq!(s.bonuses.len(), 2);
    assert_eq!(s.powerups.len(), 2);
    assert!(s.bullets.is_empty());
    assert!(matches!(s.state(), GameState::Playing));
}

#[test]
fn built_in_registry_data() {
    let levels = make_levels();
    assert_eq!(levels.len(), 3);
    assert_eq!(levels[0].goal_x, 1050 * U);
    assert_eq!(levels[1].goal_x, 1450 * U);
    assert_eq!(levels[2].goal_x, 1050 * U);
    assert_eq!(levels[0].platforms.len(), 4);
    assert_eq!(levels[1].platforms.len(), 5);
    assert_eq!(levels[1].enemies.len(), 3);
    assert!(levels[0].enemies[0].can_be_jumped_on);
    assert!(!levels[0].enemies[1].can_be_jumped_on);
    assert_eq!(levels[0].enemies[0].vx, 60_000);
    assert_eq!(levels[0].enemies[1].vx, -60_000);
    assert!(matches!(levels[0].powerups[0].kind, PowerUpKind::Speed));
    assert!(matches!(levels[1].powerups[0].kind, PowerUpKind::Invincibility));
}

#[test]
fn goal_crossing_scenario() {
    // Player at x = 1049 against goal 1050: one tick of moving right at base
    // speed for 0.1 s reaches 1069, crosses the goal, and loads level two:
    // rosters reloaded, timers zeroed, player at the new start.
    let mut s = Session::new(make_levels());
    s.player.x = 1049 * U;
    s.player.speed = Countdown { ms: 1234 };
    s.player.invincible = Countdown { ms: 777 };
    s.player.high_jump = Countdown { ms: 4321 };
    s.player.score = 350;
    s.player.health = 2;
    s.enemies[0].alive = false;
    s.tick(Intent { move_right: true, ..idle() }, 100);
    assert_eq!(s.level_index, 1);
    assert_eq!(s.player.x, 100 * U);
    assert_eq!(s.player.y, 100 * U);
    assert_eq!(s.player.speed.ms, 0);
    assert_eq!(s.player.invincible.ms, 0);
    assert_eq!(s.player.high_jump.ms, 0);
    assert_eq!(s.player.score, 350);
    assert_eq!(s.player.health, 2);
    assert_eq!(s.enemies.len(), 3);
    assert!(s.enemies.iter().all(|e| e.alive));
    assert!(s.bullets.is_empty());
    assert!(matches!(s.state(), GameState::Playing));
}

#[test]
fn movement_before_goal_is_exact() {
    let mut s = Session::new(vec![flat_level(10_000 * U)]);
    s.tick(Intent { move_right: true, ..idle() }, 100);
    assert_eq!(s.player.x, 120 * U);
    assert_eq!(s.level_index, 0);
}

#[test]
fn final_goal_enters_won_and_freezes() {
    let mut s = Session::new(vec![flat_level(150 * U)]);
    s.player.x = 149 * U;
    s.tick(Intent { move_right: true, ..idle() }, 100);
    assert!(matches!(s.state(), GameState::Won));
    assert!(s.won);
    // Further ticks without a restart change nothing, goal checks included.
    let x = s.player.x;
    let idx = s.level_index;
    s.tick(Intent { move_right: true, jump_pressed: true, ..idle() }, 100);
    assert_eq!(s.player.x, x);
    assert_eq!(s.level_index, idx);
    assert!(s.won);
}

#[test]
fn restart_after_win_returns_to_level_zero() {
    let mut s = Session::new(vec![flat_level(150 * U)]);
    s.player.x = 149 * U;
    s.player.score = 999;
    s.tick(Intent { move_right: true, ..idle() }, 100);
    assert!(s.won);
    s.tick(Intent { restart_pressed: true, ..idle() }, 100);
    assert!(!s.won);
    assert_eq!(s.level_index, 0);
    assert_eq!(s.player.score, 0);
    assert_eq!(s.player.health, 3);
    assert!(s.player.alive);
    assert_eq!(s.player.x, 100 * U);
    assert!(matches!(s.state(), GameState::Playing));
}

#[test]
fn death_freezes_until_restart_at_same_level() {
    let mut s = Session::new(vec![flat_level(10_000 * U), flat_level(10_000 * U)]);
    s.level_index = 1;
    s.enemies.push(Enemy {
        x: 100 * U,
        y: 350 * U,
        vx: 0,
        vy: 0,
        left_bound: 100 * U,
        right_bound: 100 * U,
        alive: true,
        gravity: 0,
        can_be_jumped_on: false,
    });
    s.player.health = 1;
    s.player.x = 100 * U;
    s.player.y = 350 * U;
    // The enemy overlaps the start, so the first tick kills the last health.
    s.tick(idle(), 16);
    assert!(!s.player.alive);
    assert!(matches!(s.state(), GameState::Dead));
    // Dead: ticks without restart change nothing.
    let snapshot_score = s.player.score;
    s.tick(Intent { move_right: true, ..idle() }, 100);
    assert!(!s.player.alive);
    assert_eq!(s.player.score, snapshot_score);
    // Restart stays at the level where death occurred.
    s.tick(Intent { restart_pressed: true, ..idle() }, 16);
    assert!(s.player.alive);
    assert_eq!(s.player.health, 3);
    assert_eq!(s.player.score, 0);
    assert_eq!(s.level_index, 1);
}

#[test]
fn shooting_spawns_one_bullet_and_cools_down() {
    let mut s = Session::new(vec![flat_level(10_000 * U)]);
    s.tick(Intent { shoot_pressed: true, ..idle() }, 16);
    assert_eq!(s.bullets.len(), 1);
    // The bullet moved during its spawn tick: 500 units/s for 16 ms is 8
    // units from the muzzle at x + 20 + 18.
    assert_eq!(s.bullets[0].x, s.player.x + 38 * U + 8 * U);
    assert_eq!(s.bullets[0].vx, 500_000);
    // The cooldown swallows an immediate second press.
    s.tick(Intent { shoot_pressed: true, ..idle() }, 16);
    assert_eq!(s.bullets.len(), 1);
    // After the cooldown has run out, shooting works again.
    s.tick(idle(), 300);
    s.tick(Intent { shoot_pressed: true, ..idle() }, 16);
    assert_eq!(s.bullets.len(), 2);
}

#[test]
fn aim_up_shoots_upward() {
    let mut s = Session::new(vec![flat_level(10_000 * U)]);
    s.tick(Intent { shoot_pressed: true, aim_up_held: true, ..idle() }, 0);
    assert_eq!(s.bullets.len(), 1);
    assert_eq!(s.bullets[0].vx, 0);
    assert_eq!(s.bullets[0].vy, -500_000);
    assert_eq!(s.bullets[0].x, s.player.x + 20 * U);
}

#[test]
fn shot_enemy_dies_and_scores_through_tick() {
    let mut lv = flat_level(10_000 * U);
    lv.enemies.push(Enemy {
        x: 170 * U,
        y: 330 * U,
        vx: 0,
        vy: 0,
        left_bound: 170 * U,
        right_bound: 170 * U,
        alive: true,
        gravity: 0,
        can_be_jumped_on: false,
    });
    let mut s = Session::new(vec![lv]);
    // Rest the player on the floor first so the shot flies level.
    s.tick(idle(), 16);
    s.player.y = 330 * U;
    s.player.prev_y = 330 * U;
    s.tick(Intent { shoot_pressed: true, ..idle() }, 100);
    assert!(!s.enemies[0].alive);
    assert_eq!(s.player.score, 100);
    // The spent bullet was removed at the end of the tick.
    assert!(s.bullets.is_empty());
}

#[test]
fn collecting_bonus_scores_through_tick() {
    let mut lv = flat_level(10_000 * U);
    lv.bonuses.push(Bonus { x: 100 * U, y: 355 * U, collected: false });
    lv.powerups.push(PowerUp { x: 100 * U, y: 355 * U, kind: PowerUpKind::Speed, collected: false });
    let mut s = Session::new(vec![lv]);
    s.player.x = 100 * U;
    s.player.y = 350 * U;
    s.tick(idle(), 16);
    assert!(s.bonuses[0].collected);
    assert!(s.powerups[0].collected);
    assert_eq!(s.player.score, 50);
    assert_eq!(s.player.speed.ms, 5000);
    // The next tick collects nothing further.
    s.tick(idle(), 16);
    assert_eq!(s.player.score, 50);
}

#[test]
fn dt_is_clamped_and_negative_dt_is_zero() {
    let mut s = Session::new(vec![flat_level(10_000 * U)]);
    let y0 = s.player.y;
    s.tick(Intent { move_right: true, ..idle() }, -50);
    // A negative frame delta is treated as zero: nothing moves.
    assert_eq!(s.player.x, 100 * U);
    assert_eq!(s.player.y, y0);
    // A huge frame delta is clamped to one second: 200 units/s moves 200.
    s.tick(Intent { move_right: true, ..idle() }, 99_999);
    assert_eq!(s.player.x, 300 * U);
}

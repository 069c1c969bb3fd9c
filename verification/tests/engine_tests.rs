//! Entity- and phase-level tests: integration formulas, landing, stomps,
//! damage, collectibles and bullets on concrete values.

use platformer_core::bullet::Bullet;
use platformer_core::enemy::Enemy;
use platformer_core::geom::Rect;
use platformer_core::intent::Intent;
use platformer_core::phases::{
    bonus_phase, bullet_enemy_phase, player_enemy_phase, powerup_phase, retain_alive_bullets,
    update_bullets,
};
use platformer_core::pickups::{Bonus, PowerUp, PowerUpKind};
use platformer_core::player::Player;
use platformer_core::timer::Countdown;

const U: i64 = 1_000_000;

fn idle() -> Intent {
    Intent {
        move_left: false,
        move_right: false,
        jump_pressed: false,
        jump_held: false,
        shoot_pressed: false,
        aim_up_held: false,
        restart_pressed: false,
    }
}

fn player_at(x: i64, y: i64) -> Player {
    Player {
        x,
        y,
        vx: 0,
        vy: 0,
        on_ground: false,
        facing_right: true,
        health: 3,
        score: 0,
        alive: true,
        speed: Countdown { ms: 0 },
        invincible: Countdown { ms: 0 },
        high_jump: Countdown { ms: 0 },
        prev_y: y,
    }
}

fn enemy_at(x: i64, y: i64, stompable: bool) -> Enemy {
    Enemy {
        x,
        y,
        vx: 60_000,
        vy: 0,
        left_bound: x - 100 * U,
        right_bound: x + 100 * U,
        alive: true,
        gravity: 800,
        can_be_jumped_on: stompable,
    }
}

#[test]
fn move_right_exact_distance() {
    // 200 units/s for 0.1 s is exactly 20 units.
    let mut p = player_at(1049 * U, 100 * U);
    let intent = Intent { move_right: true, ..idle() };
    let platforms: Vec<Rect> = Vec::new();
    p.update(intent, 100, &platforms, 100 * U, 100 * U);
    assert_eq!(p.x, 1069 * U);
    assert!(p.facing_right);
}

#[test]
fn speed_boost_exact_distance() {
    // 320 units/s for 0.1 s is exactly 32 units.
    let mut p = player_at(0, 100 * U);
    p.speed = Countdown { ms: 3000 };
    let intent = Intent { move_left: true, ..idle() };
    let platforms: Vec<Rect> = Vec::new();
    p.update(intent, 100, &platforms, 100 * U, 100 * U);
    assert_eq!(p.x, -32 * U);
    assert!(!p.facing_right);
}

#[test]
fn gravity_exact_velocity_and_fall() {
    let mut p = player_at(0, 0);
    let platforms: Vec<Rect> = Vec::new();
    p.update(idle(), 100, &platforms, 100 * U, 100 * U);
    // vy: 800 * 100 = 80_000 velocity ticks; fall: 80_000 * 100 = 8 units.
    assert_eq!(p.vy, 80_000);
    assert_eq!(p.y, 8 * U);
    assert_eq!(p.prev_y, 0);
}

#[test]
fn jump_only_from_ground_with_edge() {
    let platforms: Vec<Rect> = Vec::new();
    let mut p = player_at(0, 0);
    p.on_ground = true;
    p.update(Intent { jump_pressed: true, ..idle() }, 100, &platforms, 0, 0);
    assert_eq!(p.vy, -400_000 + 80_000);
    assert!(!p.on_ground);
    // Not on the ground: the same press does nothing but gravity.
    let mut q = player_at(0, 0);
    q.update(Intent { jump_pressed: true, ..idle() }, 100, &platforms, 0, 0);
    assert_eq!(q.vy, 80_000);
}

#[test]
fn high_jump_elevates_impulse() {
    let platforms: Vec<Rect> = Vec::new();
    let mut p = player_at(0, 0);
    p.on_ground = true;
    p.high_jump = Countdown { ms: 2500 };
    p.update(Intent { jump_pressed: true, ..idle() }, 100, &platforms, 0, 0);
    assert_eq!(p.vy, -650_000 + 80_000);
}

#[test]
fn dead_player_is_inert() {
    // A dead player's update returns immediately: position, velocity, ground
    // state, facing, stomp reference and all three countdowns unchanged.
    let platforms = vec![Rect { x: 0, y: 400 * U, w: 1000 * U, h: 40 * U }];
    let mut p = player_at(100 * U, 100 * U);
    p.alive = false;
    p.health = 0;
    p.prev_y = 77 * U;
    p.speed = Countdown { ms: 1500 };
    p.invincible = Countdown { ms: 900 };
    p.high_jump = Countdown { ms: 300 };
    let before = p;
    p.update(Intent { move_right: true, jump_pressed: true, ..idle() }, 100, &platforms, 0, 0);
    assert_eq!(p, before);
}

#[test]
fn rest_on_platform_stays() {
    // Resting exactly on a platform: one tick under gravity alone leaves the
    // resting height unchanged.
    let platforms = vec![Rect { x: 0, y: 400 * U, w: 1000 * U, h: 40 * U }];
    let mut p = player_at(100 * U, 400 * U - 50 * U);
    for dt in [0i64, 1, 16, 100] {
        p.update(idle(), dt, &platforms, 100 * U, 100 * U);
        assert_eq!(p.y, 400 * U - 50 * U);
        assert_eq!(p.vy, 0);
    }
    assert!(p.on_ground);
}

#[test]
fn landing_resolves_to_highest_platform() {
    // Two overlapping platforms the body could land on: the higher top wins,
    // in either list order.
    let a = Rect { x: 0, y: 300 * U, w: 1000 * U, h: 40 * U };
    let b = Rect { x: 0, y: 310 * U, w: 1000 * U, h: 40 * U };
    for platforms in [vec![a, b], vec![b, a]] {
        let mut p = player_at(100 * U, 249 * U);
        p.vy = 300_000;
        p.update(idle(), 100, &platforms, 0, 0);
        assert_eq!(p.y, 250 * U);
        assert_eq!(p.vy, 0);
        assert!(p.on_ground);
    }
}

#[test]
fn fall_out_of_world_resets_to_start() {
    let platforms: Vec<Rect> = Vec::new();
    let mut p = player_at(500 * U, 1999 * U);
    p.vy = 900_000;
    p.update(idle(), 100, &platforms, 100 * U, 100 * U);
    assert_eq!(p.x, 100 * U);
    assert_eq!(p.y, 100 * U);
    assert_eq!(p.vx, 0);
    assert_eq!(p.vy, 0);
}

#[test]
fn stomp_beats_damage() {
    // The player simultaneously overlaps a stompable and a hazardous enemy
    // with valid stomp geometry: the stompable one dies, the score rises by
    // exactly 150, and health and position are unchanged.
    let mut p = player_at(100 * U, 100 * U);
    p.vy = 100_000;
    p.prev_y = 90 * U;
    let mut enemies = vec![enemy_at(100 * U, 140 * U, true), enemy_at(110 * U, 140 * U, false)];
    let stomped = player_enemy_phase(&mut enemies, &mut p, 0, 0);
    assert!(stomped);
    assert!(!enemies[0].alive);
    assert!(enemies[1].alive);
    assert_eq!(p.score, 150);
    assert_eq!(p.health, 3);
    assert_eq!(p.x, 100 * U);
    assert_eq!(p.y, 100 * U);
    assert_eq!(p.vy, -360_000);
}

#[test]
fn damage_without_stomp_geometry() {
    // Hazardous overlap only, no invincibility: one health lost, position
    // reset to the level start, score kept.
    let mut p = player_at(100 * U, 100 * U);
    p.score = 500;
    let mut enemies = vec![enemy_at(100 * U, 100 * U, false)];
    let stomped = player_enemy_phase(&mut enemies, &mut p, 7 * U, 9 * U);
    assert!(!stomped);
    assert_eq!(p.health, 2);
    assert!(p.alive);
    assert_eq!(p.x, 7 * U);
    assert_eq!(p.y, 9 * U);
    assert_eq!(p.score, 500);
    assert!(enemies[0].alive);
}

#[test]
fn damage_kills_at_one_health() {
    let mut p = player_at(100 * U, 100 * U);
    p.health = 1;
    let mut enemies = vec![enemy_at(100 * U, 100 * U, false)];
    player_enemy_phase(&mut enemies, &mut p, 0, 0);
    assert_eq!(p.health, 0);
    assert!(!p.alive);
}

#[test]
fn invincibility_suppresses_damage() {
    let mut p = player_at(100 * U, 100 * U);
    p.invincible = Countdown { ms: 2000 };
    let mut enemies = vec![enemy_at(100 * U, 100 * U, false)];
    player_enemy_phase(&mut enemies, &mut p, 7 * U, 9 * U);
    assert_eq!(p.health, 3);
    assert_eq!(p.x, 100 * U);
    assert_eq!(p.y, 100 * U);
}

#[test]
fn stompable_enemy_without_geometry_damages() {
    // Overlap with a stompable enemy while moving upward is no stomp: the
    // damage rule applies instead.
    let mut p = player_at(100 * U, 100 * U);
    p.vy = -50_000;
    let mut enemies = vec![enemy_at(100 * U, 100 * U, true)];
    let stomped = player_enemy_phase(&mut enemies, &mut p, 0, 0);
    assert!(!stomped);
    assert_eq!(p.health, 2);
    assert!(enemies[0].alive);
}

#[test]
fn bonus_collects_once() {
    let mut p = player_at(100 * U, 100 * U);
    let mut bonuses = vec![Bonus { x: 100 * U, y: 100 * U, collected: false }];
    bonus_phase(&mut bonuses, &mut p);
    assert!(bonuses[0].collected);
    assert_eq!(p.score, 50);
    // A second pass over the already-collected bonus changes nothing.
    bonus_phase(&mut bonuses, &mut p);
    assert_eq!(p.score, 50);
    assert!(bonuses[0].collected);
}

#[test]
fn powerup_collects_once_and_heals_capped() {
    let mut p = player_at(100 * U, 100 * U);
    p.health = 2;
    let mut pus = vec![PowerUp { x: 100 * U, y: 100 * U, kind: PowerUpKind::Health, collected: false }];
    powerup_phase(&mut pus, &mut p);
    assert!(pus[0].collected);
    assert_eq!(p.health, 3);
    // Collected power-ups are inert; health is capped at 3 anyway.
    powerup_phase(&mut pus, &mut p);
    assert_eq!(p.health, 3);
}

#[test]
fn speed_timer_flat_reset() {
    // Collecting Speed at 4.9 s left, then again at 4.0 s left, yields 5.0 s
    // each time — never 9.0 or 8.9.
    let mut p = player_at(100 * U, 100 * U);
    p.speed = Countdown { ms: 4900 };
    let mut pus = vec![PowerUp { x: 100 * U, y: 100 * U, kind: PowerUpKind::Speed, collected: false }];
    powerup_phase(&mut pus, &mut p);
    assert_eq!(p.speed.ms, 5000);
    p.speed = Countdown { ms: 4000 };
    let mut pus2 = vec![PowerUp { x: 100 * U, y: 100 * U, kind: PowerUpKind::Speed, collected: false }];
    powerup_phase(&mut pus2, &mut p);
    assert_eq!(p.speed.ms, 5000);
}

#[test]
fn powerup_timers_by_kind() {
    let mut p = player_at(100 * U, 100 * U);
    let mut pus = vec![
        PowerUp { x: 100 * U, y: 100 * U, kind: PowerUpKind::Invincibility, collected: false },
        PowerUp { x: 100 * U, y: 100 * U, kind: PowerUpKind::HighJump, collected: false },
    ];
    powerup_phase(&mut pus, &mut p);
    assert_eq!(p.invincible.ms, 5000);
    assert_eq!(p.high_jump.ms, 5000);
    assert_eq!(p.speed.ms, 0);
}

#[test]
fn bullet_kills_exactly_one_of_two() {
    // One bullet overlapping two alive, adjacent enemies: exactly one dies
    // and the score rises by exactly 100.
    let b = Bullet { x: 100 * U, y: 110 * U, vx: 500_000, vy: 0, alive: true };
    let mut bullets = vec![b];
    let mut enemies = vec![enemy_at(95 * U, 100 * U, false), enemy_at(105 * U, 100 * U, false)];
    let score = bullet_enemy_phase(&mut bullets, &mut enemies, 0);
    assert_eq!(score, 100);
    let dead = enemies.iter().filter(|e| !e.alive).count();
    assert_eq!(dead, 1);
    assert!(!bullets[0].alive);
}

#[test]
fn dead_bullet_hits_nothing() {
    let b = Bullet { x: 100 * U, y: 110 * U, vx: 500_000, vy: 0, alive: false };
    let mut bullets = vec![b];
    let mut enemies = vec![enemy_at(100 * U, 100 * U, false)];
    let score = bullet_enemy_phase(&mut bullets, &mut enemies, 42);
    assert_eq!(score, 42);
    assert!(enemies[0].alive);
}

#[test]
fn bullet_dies_out_of_bounds_and_is_removed() {
    let mut bullets = vec![
        Bullet { x: 2999 * U, y: 100 * U, vx: 500_000, vy: 0, alive: true },
        Bullet { x: 100 * U, y: 100 * U, vx: 500_000, vy: 0, alive: true },
    ];
    update_bullets(&mut bullets, 100);
    assert!(!bullets[0].alive);
    assert!(bullets[1].alive);
    retain_alive_bullets(&mut bullets);
    assert_eq!(bullets.len(), 1);
    assert_eq!(bullets[0].x, 150 * U);
}

#[test]
fn enemy_patrol_clamps_and_reverses() {
    let platforms: Vec<Rect> = Vec::new();
    let mut e = Enemy {
        x: 389 * U,
        y: 270 * U,
        vx: 60_000,
        vy: 0,
        left_bound: 300 * U,
        right_bound: 390 * U,
        alive: true,
        gravity: 0,
        can_be_jumped_on: true,
    };
    // 60 units/s for 0.1 s is 6 units: overshoots 390 and is clamped back.
    e.update(100, &platforms);
    assert_eq!(e.x, 390 * U);
    assert_eq!(e.vx, -60_000);
    e.update(100, &platforms);
    assert_eq!(e.x, 384 * U);
}

#[test]
fn enemy_lands_on_platform() {
    let platforms = vec![Rect { x: 0, y: 400 * U, w: 1000 * U, h: 40 * U }];
    let mut e = enemy_at(100 * U, 400 * U - 45 * U, true);
    e.vx = 0;
    e.update(50, &platforms);
    assert_eq!(e.y, 400 * U - 45 * U);
    assert_eq!(e.vy, 0);
}

#[test]
fn dead_enemy_is_inert() {
    let platforms: Vec<Rect> = Vec::new();
    let mut e = enemy_at(100 * U, 100 * U, true);
    e.alive = false;
    let before = e;
    e.update(100, &platforms);
    assert_eq!(e, before);
}

#[test]
fn bullet_spawn_positions() {
    let up = Bullet::spawn(100 * U, 200 * U, true, true);
    assert_eq!(up.x, 120 * U);
    assert_eq!(up.y, 200 * U);
    assert_eq!(up.vx, 0);
    assert_eq!(up.vy, -500_000);
    let right = Bullet::spawn(100 * U, 200 * U, true, false);
    assert_eq!(right.x, 138 * U);
    assert_eq!(right.y, 225 * U);
    assert_eq!(right.vx, 500_000);
    let left = Bullet::spawn(100 * U, 200 * U, false, false);
    assert_eq!(left.x, 102 * U);
    assert_eq!(left.vx, -500_000);
}

#[test]
fn touching_edges_do_not_overlap() {
    let a = Rect { x: 0, y: 0, w: 10 * U, h: 10 * U };
    let b = Rect { x: 10 * U, y: 0, w: 10 * U, h: 10 * U };
    assert!(!a.overlaps(&b));
    let c = Rect { x: 9 * U, y: 9 * U, w: 10 * U, h: 10 * U };
    assert!(a.overlaps(&c));
}

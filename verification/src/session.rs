//! The game session: one player, the working rosters, the level registry,
//! and the tick that drives one frame of simulation through the fixed phase
//! pipeline.

use vstd::prelude::*;
use crate::arith::{clamp_i64, clamp_m, timer_tick_m};
use crate::bullet::{bullets_m, bullets_wf, spawn_bullet_m, Bullet, BulletM};
use crate::consts::{MAX_DT_MS, SHOOT_COOLDOWN_MS, TIMER_LIMIT_MS};
use crate::enemy::{enemies_m, enemies_wf, Enemy, EnemyM};
use crate::intent::Intent;
use crate::level::{
    clone_bonuses, clone_enemies, clone_powerups, levels_m, levels_wf, Level, LevelM,
};
use crate::phases::{
    bonus_phase, bonuses_from, bullet_enemy_phase, bullets_update_m, enemies_update_m,
    filter_alive_m, hits_from, player_enemy_m, player_enemy_phase, powerup_phase, powerups_from,
    retain_alive_bullets, update_bullets, update_enemies,
};
use crate::pickups::{bonuses_m, bonuses_wf, powerups_m, powerups_wf, Bonus, BonusM, PowerUp, PowerUpM};
use crate::player::{fresh_player_m, player_update_m, Player, PlayerM};
use crate::timer::Countdown;

verus! {

/// The three observable session states.
#[derive(Clone, Copy, PartialEq, Eq, Debug)]
pub enum GameState {
    Playing,
    Dead,
    Won,
}

/// Mathematical view of a session.
#[verifier::ext_equal]
pub ghost struct SessionM {
    pub levels: Seq<LevelM>,
    pub level_index: int,
    pub player: PlayerM,
    pub enemies: Seq<EnemyM>,
    pub bonuses: Seq<BonusM>,
    pub powerups: Seq<PowerUpM>,
    pub bullets: Seq<BulletM>,
    pub cooldown_ms: int,
    pub won: bool,
}

impl SessionM {
    pub open spec fn wf(self) -> bool {
        &&& self.levels.len() >= 1
        &&& levels_wf(self.levels)
        &&& self.player.wf()
        &&& enemies_wf(self.enemies)
        &&& bonuses_wf(self.bonuses)
        &&& powerups_wf(self.powerups)
        &&& bullets_wf(self.bullets)
        &&& 0 <= self.cooldown_ms <= TIMER_LIMIT_MS
        &&& 0 <= self.level_index
        &&& (if self.won {
            self.level_index <= self.levels.len()
        } else {
            self.level_index < self.levels.len()
        })
    }

    /// The observable state: `Won` once past the final goal, `Dead` while the
    /// player is not alive, else `Playing`.
    pub open spec fn state_m(self) -> GameState {
        if self.won {
            GameState::Won
        } else if !self.player.alive {
            GameState::Dead
        } else {
            GameState::Playing
        }
    }
}

/// A fresh session on the given registry: level zero loaded, rosters copied
/// from its templates, a fresh player at its start.
pub open spec fn new_session_m(ls: Seq<LevelM>) -> SessionM {
    SessionM {
        levels: ls,
        level_index: 0,
        player: fresh_player_m(ls[0].start_x, ls[0].start_y),
        enemies: ls[0].enemies,
        bonuses: ls[0].bonuses,
        powerups: ls[0].powerups,
        bullets: Seq::empty(),
        cooldown_ms: 0,
        won: false,
    }
}

/// The restart action: back to `Playing` with a fresh full-health zero-score
/// player and freshly copied rosters — at level zero after a win, at the
/// current level after a death.
pub open spec fn restart_m(s: SessionM) -> SessionM {
    let idx: int = if s.won {
        0
    } else {
        s.level_index
    };
    let lv = s.levels[idx];
    SessionM {
        level_index: idx,
        won: false,
        player: fresh_player_m(lv.start_x, lv.start_y),
        enemies: lv.enemies,
        bonuses: lv.bonuses,
        powerups: lv.powerups,
        bullets: Seq::empty(),
        ..s
    }
}

/// The level-progression check: once the player's x exceeds the goal, either
/// enter the terminal won state (past the last level) or load the next level:
/// reposition the player (health and score kept), zero all three status
/// countdowns, and replace every roster with fresh template copies.
pub open spec fn progress_m(s: SessionM) -> SessionM {
    let lv = s.levels[s.level_index];
    if s.player.x > lv.goal_x {
        let ni = s.level_index + 1;
        if ni >= s.levels.len() {
            SessionM { level_index: ni, won: true, ..s }
        } else {
            let nl = s.levels[ni];
            SessionM {
                level_index: ni,
                player: PlayerM {
                    x: nl.start_x,
                    y: nl.start_y,
                    vx: 0,
                    vy: 0,
                    prev_y: nl.start_y,
                    speed_ms: 0,
                    invincible_ms: 0,
                    high_jump_ms: 0,
                    ..s.player
                },
                enemies: nl.enemies,
                bonuses: nl.bonuses,
                powerups: nl.powerups,
                bullets: Seq::empty(),
                ..s
            }
        }
    } else {
        s
    }
}

/// One whole simulation tick: while dead or won only the restart action is
/// evaluated; otherwise the phases run in their fixed order — player
/// integration, shooting, bullet advance, enemy advance, bullet-vs-enemy,
/// stomp-before-damage, then (unless that killed the player) bonuses,
/// power-ups and the level-progression check. Dead bullets are removed once,
/// after the bullet interactions. The raw frame delta is clamped into
/// `[0, MAX_DT_MS]` first.
pub open spec fn tick_m(s: SessionM, intent: Intent, dt_raw: int) -> SessionM {
    let dt = clamp_m(dt_raw, 0, MAX_DT_MS as int);
    if !s.player.alive || s.won {
        if intent.restart_pressed {
            restart_m(s)
        } else {
            s
        }
    } else {
        let lv = s.levels[s.level_index];
        let p1 = player_update_m(s.player, intent, dt, lv.platforms, lv.start_x, lv.start_y);
        let cd1 = timer_tick_m(s.cooldown_ms, dt);
        let shooting = intent.shoot_pressed && cd1 <= 0;
        let bullets1 = if shooting {
            s.bullets.push(spawn_bullet_m(p1.x, p1.y, p1.facing_right, intent.aim_up_held))
        } else {
            s.bullets
        };
        let cd2: int = if shooting {
            SHOOT_COOLDOWN_MS as int
        } else {
            cd1
        };
        let bullets2 = bullets_update_m(bullets1, dt);
        let enemies1 = enemies_update_m(s.enemies, dt, lv.platforms);
        let hits = hits_from(bullets2, enemies1, p1.score, 0);
        let bullets3 = filter_alive_m(hits.0);
        let p2 = PlayerM { score: hits.2, ..p1 };
        let pe = player_enemy_m(hits.1, p2, lv.start_x, lv.start_y);
        if !pe.1.alive {
            SessionM { player: pe.1, enemies: pe.0, bullets: bullets3, cooldown_ms: cd2, ..s }
        } else {
            let bo = bonuses_from(s.bonuses, pe.1, 0);
            let pw = powerups_from(s.powerups, bo.1, 0);
            progress_m(
                SessionM {
                    player: pw.1,
                    enemies: pe.0,
                    bonuses: bo.0,
                    powerups: pw.0,
                    bullets: bullets3,
                    cooldown_ms: cd2,
                    ..s
                },
            )
        }
    }
}

/// One running game: the registry, the current level index, the player, the
/// working rosters and the terminal-state flag.
pub struct Session {
    pub levels: Vec<Level>,
    pub level_index: usize,
    pub player: Player,
    pub enemies: Vec<Enemy>,
    pub bonuses: Vec<Bonus>,
    pub powerups: Vec<PowerUp>,
    pub bullets: Vec<Bullet>,
    pub cooldown: Countdown,
    pub won: bool,
}

impl View for Session {
    type V = SessionM;

    open spec fn view(&self) -> SessionM {
        SessionM {
            levels: levels_m(self.levels@),
            level_index: self.level_index as int,
            player: self.player@,
            enemies: enemies_m(self.enemies@),
            bonuses: bonuses_m(self.bonuses@),
            powerups: powerups_m(self.powerups@),
            bullets: bullets_m(self.bullets@),
            cooldown_ms: self.cooldown.ms as int,
            won: self.won,
        }
    }
}

impl Session {
    pub open spec fn wf(self) -> bool {
        self@.wf()
    }

    /// Start a session on the given registry, at its first level.
    pub fn new(levels: Vec<Level>) -> (s: Session)
        requires
            levels_wf(levels_m(levels@)),
            levels@.len() >= 1,
        ensures
            s@ == new_session_m(levels_m(levels@)),
            s.wf(),
    {
        proof {
            assert(levels_m(levels@)[0] == levels@[0]@);
            assert(levels_m(levels@)[0].wf());
        }
        let sx = levels[0].start_x;
        let sy = levels[0].start_y;
        let player = Player::fresh(sx, sy);
        let enemies = clone_enemies(&levels[0].enemies);
        let bonuses = clone_bonuses(&levels[0].bonuses);
        let powerups = clone_powerups(&levels[0].powerups);
        let s = Session {
            levels,
            level_index: 0,
            player,
            enemies,
            bonuses,
            powerups,
            bullets: Vec::new(),
            cooldown: Countdown::zero(),
            won: false,
        };
        proof {
            assert(s@ =~= new_session_m(levels_m(s.levels@)));
        }
        s
    }

    /// The observable session state.
    pub fn state(&self) -> (r: GameState)
        ensures
            r == self@.state_m(),
    {
        if self.won {
            GameState::Won
        } else if !self.player.alive {
            GameState::Dead
        } else {
            GameState::Playing
        }
    }

    /// Restart after a death or a win.
    pub fn restart(&mut self)
        requires
            old(self).wf(),
        ensures
            final(self)@ == restart_m(old(self)@),
            final(self).wf(),
    {
        let idx: usize = if self.won {
            0
        } else {
            self.level_index
        };
        proof {
            assert(levels_m(self.levels@)[idx as int] == self.levels@[idx as int]@);
            assert(levels_m(self.levels@)[idx as int].wf());
        }
        let sx = self.levels[idx].start_x;
        let sy = self.levels[idx].start_y;
        self.level_index = idx;
        self.won = false;
        self.player = Player::fresh(sx, sy);
        self.enemies = clone_enemies(&self.levels[idx].enemies);
        self.bonuses = clone_bonuses(&self.levels[idx].bonuses);
        self.powerups = clone_powerups(&self.levels[idx].powerups);
        self.bullets = Vec::new();
        proof {
            assert(self@ =~= restart_m(old(self)@));
        }
    }

    /// The level-progression check at the end of an active tick.
    fn progress(&mut self)
        requires
            old(self).wf(),
            !old(self).won,
        ensures
            final(self)@ == progress_m(old(self)@),
            final(self).wf(),
    {
        let idx = self.level_index;
        proof {
            assert(levels_m(self.levels@)[idx as int] == self.levels@[idx as int]@);
            assert(levels_m(self.levels@)[idx as int].wf());
        }
        let goal = self.levels[idx].goal_x;
        let n = self.levels.len();
        if self.player.x > goal {
            assert(idx < n);
            self.level_index = idx + 1;
            if self.level_index >= self.levels.len() {
                self.won = true;
            } else {
                let ni = self.level_index;
                proof {
                    assert(levels_m(self.levels@)[ni as int] == self.levels@[ni as int]@);
                    assert(levels_m(self.levels@)[ni as int].wf());
                }
                let sx = self.levels[ni].start_x;
                let sy = self.levels[ni].start_y;
                self.player.reset(sx, sy);
                self.player.speed.set(0);
                self.player.invincible.set(0);
                self.player.high_jump.set(0);
                self.enemies = clone_enemies(&self.levels[ni].enemies);
                self.bonuses = clone_bonuses(&self.levels[ni].bonuses);
                self.powerups = clone_powerups(&self.levels[ni].powerups);
                self.bullets = Vec::new();
            }
        }
        proof {
            assert(self@ =~= progress_m(old(self)@));
        }
    }

    /// Drive one frame of simulation from this frame's intent and the raw
    /// elapsed milliseconds.
    pub fn tick(&mut self, intent: Intent, dt_raw: i64)
        requires
            old(self).wf(),
        ensures
            final(self)@ == tick_m(old(self)@, intent, dt_raw as int),
            final(self).wf(),
    {
        let dt = clamp_i64(dt_raw, 0, MAX_DT_MS);
        if !self.player.alive || self.won {
            if intent.restart_pressed {
                self.restart();
            }
            return ;
        }
        let ghost s0 = self@;
        let idx = self.level_index;
        proof {
            assert(levels_m(self.levels@)[idx as int] == self.levels@[idx as int]@);
            assert(levels_m(self.levels@)[idx as int].wf());
        }
        let sx = self.levels[idx].start_x;
        let sy = self.levels[idx].start_y;
        self.player.update(intent, dt, &self.levels[idx].platforms, sx, sy);
        self.cooldown.tick(dt);
        let shooting = intent.shoot_pressed && !self.cooldown.is_active();
        if shooting {
            let ghost bprev = bullets_m(self.bullets@);
            let b = Bullet::spawn(
                self.player.x,
                self.player.y,
                self.player.facing_right,
                intent.aim_up_held,
            );
            self.bullets.push(b);
            self.cooldown.set(SHOOT_COOLDOWN_MS);
            proof {
                assert(bullets_m(self.bullets@) =~= bprev.push(b@));
                assert forall|j: int| 0 <= j < bullets_m(self.bullets@).len() implies (
                #[trigger] bullets_m(self.bullets@)[j]).wf() by {
                    if j < bprev.len() {
                        assert(bullets_m(self.bullets@)[j] == bprev[j]);
                    } else {
                        assert(bullets_m(self.bullets@)[j] == b@);
                    }
                }
            }
        }
        update_bullets(&mut self.bullets, dt);
        update_enemies(&mut self.enemies, dt, &self.levels[idx].platforms);
        let sc = bullet_enemy_phase(&mut self.bullets, &mut self.enemies, self.player.score);
        self.player.score = sc;
        retain_alive_bullets(&mut self.bullets);
        let _stomped = player_enemy_phase(&mut self.enemies, &mut self.player, sx, sy);
        if !self.player.alive {
            proof {
                assert(self@ =~= tick_m(s0, intent, dt_raw as int));
            }
            return ;
        }
        bonus_phase(&mut self.bonuses, &mut self.player);
        powerup_phase(&mut self.powerups, &mut self.player);
        self.progress();
        proof {
            assert(self@ =~= tick_m(s0, intent, dt_raw as int));
        }
    }
}

} // verus!

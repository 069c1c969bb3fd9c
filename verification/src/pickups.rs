//! One-shot collectibles: score bonuses and timed power-ups.

use vstd::prelude::*;
use crate::consts::{BONUS_SIZE, POS_LIMIT, POWERUP_SIZE};
use crate::geom::RectM;

verus! {

/// Mathematical view of a bonus.
pub ghost struct BonusM {
    pub x: int,
    pub y: int,
    pub collected: bool,
}

impl BonusM {
    pub open spec fn wf(self) -> bool {
        &&& -POS_LIMIT <= self.x <= POS_LIMIT
        &&& -POS_LIMIT <= self.y <= POS_LIMIT
    }

    pub open spec fn rect(self) -> RectM {
        RectM { x: self.x, y: self.y, w: BONUS_SIZE as int, h: BONUS_SIZE as int }
    }
}

/// A score pickup; collecting it is permanent for the rest of the level.
#[derive(Clone, Copy, PartialEq, Eq, Debug)]
pub struct Bonus {
    pub x: i64,
    pub y: i64,
    pub collected: bool,
}

impl View for Bonus {
    type V = BonusM;

    open spec fn view(&self) -> BonusM {
        BonusM { x: self.x as int, y: self.y as int, collected: self.collected }
    }
}

impl Bonus {
    pub open spec fn wf(self) -> bool {
        self@.wf()
    }

    pub fn new(x: i64, y: i64) -> (r: Bonus)
        ensures
            r@ == (BonusM { x: x as int, y: y as int, collected: false }),
    {
        Bonus { x, y, collected: false }
    }

    pub fn rect(&self) -> (r: crate::geom::Rect)
        ensures
            r@ == self@.rect(),
    {
        crate::geom::Rect { x: self.x, y: self.y, w: BONUS_SIZE, h: BONUS_SIZE }
    }
}

/// The four power-up effects.
#[derive(Clone, Copy, PartialEq, Eq, Debug)]
pub enum PowerUpKind {
    Health,
    Speed,
    Invincibility,
    HighJump,
}

/// Mathematical view of a power-up.
pub ghost struct PowerUpM {
    pub x: int,
    pub y: int,
    pub kind: PowerUpKind,
    pub collected: bool,
}

impl PowerUpM {
    pub open spec fn wf(self) -> bool {
        &&& -POS_LIMIT <= self.x <= POS_LIMIT
        &&& -POS_LIMIT <= self.y <= POS_LIMIT
    }

    pub open spec fn rect(self) -> RectM {
        RectM { x: self.x, y: self.y, w: POWERUP_SIZE as int, h: POWERUP_SIZE as int }
    }
}

/// A one-shot pickup that triggers a player-state effect by kind.
#[derive(Clone, Copy, PartialEq, Eq, Debug)]
pub struct PowerUp {
    pub x: i64,
    pub y: i64,
    pub kind: PowerUpKind,
    pub collected: bool,
}

impl View for PowerUp {
    type V = PowerUpM;

    open spec fn view(&self) -> PowerUpM {
        PowerUpM { x: self.x as int, y: self.y as int, kind: self.kind, collected: self.collected }
    }
}

impl PowerUp {
    pub open spec fn wf(self) -> bool {
        self@.wf()
    }

    pub fn new(x: i64, y: i64, kind: PowerUpKind) -> (r: PowerUp)
        ensures
            r@ == (PowerUpM { x: x as int, y: y as int, kind, collected: false }),
    {
        PowerUp { x, y, kind, collected: false }
    }

    pub fn rect(&self) -> (r: crate::geom::Rect)
        ensures
            r@ == self@.rect(),
    {
        crate::geom::Rect { x: self.x, y: self.y, w: POWERUP_SIZE, h: POWERUP_SIZE }
    }
}

/// The views of a bonus roster.
pub open spec fn bonuses_m(s: Seq<Bonus>) -> Seq<BonusM> {
    s.map_values(|b: Bonus| b@)
}

pub open spec fn bonuses_wf(s: Seq<BonusM>) -> bool {
    forall|i: int| 0 <= i < s.len() ==> (#[trigger] s[i]).wf()
}

/// The views of a power-up roster.
pub open spec fn powerups_m(s: Seq<PowerUp>) -> Seq<PowerUpM> {
    s.map_values(|p: PowerUp| p@)
}

pub open spec fn powerups_wf(s: Seq<PowerUpM>) -> bool {
    forall|i: int| 0 <= i < s.len() ==> (#[trigger] s[i]).wf()
}

} // verus!

//! Axis-aligned rectangles, the sole collision primitive.

use vstd::prelude::*;
use crate::consts::{COORD_LIMIT, POS_LIMIT};

verus! {

/// Mathematical view of a rectangle, in coordinate ticks.
pub ghost struct RectM {
    pub x: int,
    pub y: int,
    pub w: int,
    pub h: int,
}

impl RectM {
    pub open spec fn wf(self) -> bool {
        &&& 0 < self.w <= COORD_LIMIT
        &&& 0 < self.h <= COORD_LIMIT
        &&& -COORD_LIMIT <= self.x <= COORD_LIMIT
        &&& -COORD_LIMIT <= self.y <= COORD_LIMIT
    }

    /// Strict intersection: rectangles that merely touch along an edge do not
    /// overlap.
    pub open spec fn overlaps(self, o: RectM) -> bool {
        &&& self.x < o.x + o.w
        &&& o.x < self.x + self.w
        &&& self.y < o.y + o.h
        &&& o.y < self.y + self.h
    }
}

#[derive(Clone, Copy, PartialEq, Eq, Debug)]
pub struct Rect {
    pub x: i64,
    pub y: i64,
    pub w: i64,
    pub h: i64,
}

impl View for Rect {
    type V = RectM;

    open spec fn view(&self) -> RectM {
        RectM { x: self.x as int, y: self.y as int, w: self.w as int, h: self.h as int }
    }
}

/// The views of a list of rectangles.
pub open spec fn rects_m(s: Seq<Rect>) -> Seq<RectM> {
    s.map_values(|r: Rect| r@)
}

pub open spec fn rects_wf(s: Seq<RectM>) -> bool {
    forall|i: int| 0 <= i < s.len() ==> #[trigger] s[i].wf()
}

impl Rect {
    pub open spec fn wf(self) -> bool {
        self@.wf()
    }

    pub fn new(x: i64, y: i64, w: i64, h: i64) -> (r: Rect)
        ensures
            r@ == (RectM { x: x as int, y: y as int, w: w as int, h: h as int }),
    {
        Rect { x, y, w, h }
    }

    /// Strict AABB intersection test.
    pub fn overlaps(&self, o: &Rect) -> (r: bool)
        requires
            -POS_LIMIT <= self.x <= POS_LIMIT,
            -POS_LIMIT <= self.y <= POS_LIMIT,
            0 <= self.w <= COORD_LIMIT,
            0 <= self.h <= COORD_LIMIT,
            -POS_LIMIT <= o.x <= POS_LIMIT,
            -POS_LIMIT <= o.y <= POS_LIMIT,
            0 <= o.w <= COORD_LIMIT,
            0 <= o.h <= COORD_LIMIT,
        ensures
            r == self@.overlaps(o@),
    {
        self.x < o.x + o.w && o.x < self.x + self.w && self.y < o.y + o.h && o.y < self.y + self.h
    }
}

} // verus!

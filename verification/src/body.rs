//! Platform landing resolution shared by every grounded-capable body.
//!
//! A body lands on a platform only when it comes from above: its candidate
//! rectangle penetrates the platform, it is moving downward, and its bottom
//! edge before the move was at or above the platform's top. Among all
//! platforms a body could land on, the highest top wins, so the outcome does
//! not depend on the order of the platform list.

use vstd::prelude::*;
use crate::consts::COORD_LIMIT;
use crate::geom::{rects_m, rects_wf, Rect, RectM};

verus! {

/// The purely geometric part of the landing rule for one platform: the moved
/// body penetrates it and the body's previous bottom edge was at or above its
/// top.
pub open spec fn can_land_m(plat: RectM, cand: RectM, old_bottom: int) -> bool {
    cand.overlaps(plat) && old_bottom <= plat.y
}

/// The top of the platform a downward-moving body lands on: the least `y`
/// (the highest top) among the platforms it could land on, `None` when there
/// is none.
pub open spec fn landing_top_m(plats: Seq<RectM>, cand: RectM, old_bottom: int) -> Option<int>
    decreases plats.len(),
{
    if plats.len() == 0 {
        None
    } else {
        let rest = landing_top_m(plats.drop_last(), cand, old_bottom);
        if can_land_m(plats.last(), cand, old_bottom) {
            match rest {
                None => Some(plats.last().y),
                Some(t) => Some(if plats.last().y <= t { plats.last().y } else { t }),
            }
        } else {
            rest
        }
    }
}

/// What `landing_top_m` returns: `None` exactly when no platform admits a
/// landing, and otherwise the least top among those that do.
pub proof fn lemma_landing_top_props(plats: Seq<RectM>, cand: RectM, old_bottom: int)
    ensures
        landing_top_m(plats, cand, old_bottom) is None <==> (forall|i: int|
            0 <= i < plats.len() ==> !can_land_m(#[trigger] plats[i], cand, old_bottom)),
        landing_top_m(plats, cand, old_bottom) is Some ==> exists|i: int|
            0 <= i < plats.len() && can_land_m(#[trigger] plats[i], cand, old_bottom)
                && plats[i].y == landing_top_m(plats, cand, old_bottom)->0,
        forall|i: int|
            0 <= i < plats.len() && can_land_m(#[trigger] plats[i], cand, old_bottom)
                ==> landing_top_m(plats, cand, old_bottom) is Some
                    && landing_top_m(plats, cand, old_bottom)->0 <= plats[i].y,
    decreases plats.len(),
{
    if plats.len() > 0 {
        lemma_landing_top_props(plats.drop_last(), cand, old_bottom);
        assert forall|i: int| 0 <= i < plats.len() - 1 implies plats.drop_last()[i] == plats[i] by {}
        assert(plats.last() == plats[plats.len() - 1]);
    }
}

/// Landing resolution does not depend on the order of the platform list:
/// two lists holding the same platforms resolve to the same outcome.
pub proof fn lemma_landing_top_order_independent(
    a: Seq<RectM>,
    b: Seq<RectM>,
    cand: RectM,
    old_bottom: int,
)
    requires
        forall|r: RectM| a.contains(r) <==> b.contains(r),
    ensures
        landing_top_m(a, cand, old_bottom) == landing_top_m(b, cand, old_bottom),
{
    lemma_landing_top_props(a, cand, old_bottom);
    lemma_landing_top_props(b, cand, old_bottom);
    let ra = landing_top_m(a, cand, old_bottom);
    let rb = landing_top_m(b, cand, old_bottom);
    if ra is Some {
        let i = choose|i: int|
            0 <= i < a.len() && can_land_m(#[trigger] a[i], cand, old_bottom) && a[i].y == ra->0;
        assert(a.contains(a[i]));
        let j = choose|j: int| 0 <= j < b.len() && b[j] == a[i];
        assert(can_land_m(b[j], cand, old_bottom));
        assert(rb is Some && rb->0 <= ra->0);
    }
    if rb is Some {
        let i = choose|i: int|
            0 <= i < b.len() && can_land_m(#[trigger] b[i], cand, old_bottom) && b[i].y == rb->0;
        assert(b.contains(b[i]));
        let j = choose|j: int| 0 <= j < a.len() && a[j] == b[i];
        assert(can_land_m(a[j], cand, old_bottom));
        assert(ra is Some && ra->0 <= rb->0);
    }
}

pub open spec fn opt_i64_to_int(o: Option<i64>) -> Option<int> {
    match o {
        Some(t) => Some(t as int),
        None => None,
    }
}

/// Scan the platform list for the highest top the candidate body may land on.
pub fn find_landing_top(platforms: &Vec<Rect>, cand: Rect, old_bottom: i64) -> (r: Option<i64>)
    requires
        rects_wf(rects_m(platforms@)),
        -COORD_LIMIT <= cand.x <= COORD_LIMIT,
        -COORD_LIMIT <= cand.y <= COORD_LIMIT,
        0 <= cand.w <= COORD_LIMIT,
        0 <= cand.h <= COORD_LIMIT,
    ensures
        opt_i64_to_int(r) == landing_top_m(rects_m(platforms@), cand@, old_bottom as int),
        r is Some ==> -COORD_LIMIT <= r->0 <= COORD_LIMIT,
{
    let ghost pm = rects_m(platforms@);
    let mut best: Option<i64> = None;
    let mut i: usize = 0;
    while i < platforms.len()
        invariant
            0 <= i <= platforms.len(),
            rects_wf(pm),
            pm == rects_m(platforms@),
            pm.len() == platforms@.len(),
            -COORD_LIMIT <= cand.x <= COORD_LIMIT,
            -COORD_LIMIT <= cand.y <= COORD_LIMIT,
            0 <= cand.w <= COORD_LIMIT,
            0 <= cand.h <= COORD_LIMIT,
            opt_i64_to_int(best) == landing_top_m(pm.take(i as int), cand@, old_bottom as int),
            best is Some ==> -COORD_LIMIT <= best->0 <= COORD_LIMIT,
        decreases platforms.len() - i,
    {
        let p = platforms[i];
        proof {
            assert(pm[i as int] == p@);
            assert(pm[i as int].wf());
            assert(pm.take(i + 1).drop_last() =~= pm.take(i as int));
            assert(pm.take(i + 1).last() == pm[i as int]);
        }
        if cand.overlaps(&p) && old_bottom <= p.y {
            assert(can_land_m(pm[i as int], cand@, old_bottom as int));
            match best {
                None => {
                    best = Some(p.y);
                },
                Some(t) => {
                    if p.y <= t {
                        best = Some(p.y);
                    }
                },
            }
        } else {
            assert(!can_land_m(pm[i as int], cand@, old_bottom as int));
        }
        i = i + 1;
    }
    proof {
        assert(pm.take(platforms@.len() as int) =~= pm);
    }
    best
}

} // verus!

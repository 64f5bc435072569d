//! The geometric laws of the tile engine, proved once for every pose.
//!
//! Because coordinates are exact, these hold as algebraic identities, not
//! within a floating tolerance: the direction of every edge agrees with the
//! integer edge-angle table; the internal angles of each shape close up;
//! and a placed tile's glued edge lands exactly on its anchor, midpoint on
//! midpoint, running the opposite way.

use crate::coord::{
    fadd, fscale, fsub, fzero, is_qzero, lemma_fixed_doubled, lemma_fixed_halved, lemma_fixed_minus, lemma_fixed_plus,
    lemma_qeq_from_fixed, lemma_qeq_trans, qeq, Quartic,
};
use crate::dart::{
    dart_delta, dart_len, dart_offset, dart_point, dart_turn, lemma_dart_tables_small,
    s_dart_edge_angle, s_dart_edge_center, s_dart_vertex, s_place_dart,
};
use crate::degrees::{
    lemma_norm360_add, lemma_norm360_mod36, lemma_norm360_range, lemma_norm360_vanish, norm360,
};
use crate::kite::{
    kite_delta, kite_len, kite_offset, kite_point, kite_turn, lemma_kite_tables_small,
    s_kite_edge_angle, s_kite_edge_center, s_kite_vertex, s_place_kite,
};
use crate::tile::{cos_t, edge_pair, len_value, qc, rot36, s_placed, s_world, sin_t, EdgeLength, TilePose, Vec2};
use vstd::arithmetic::div_mod::{lemma_add_mod_noop, lemma_fundamental_div_mod};
use crate::dart_grid::{lemma_dart_dir_table, lemma_dart_join_table};
use crate::kite_grid::{lemma_kite_dir_table, lemma_kite_join_table};
use vstd::prelude::*;

verus! {

/// Edge `e` of a dart rotated by 36*u degrees runs along direction
/// `dart_offset(e) + 36*u`, with its tabulated length: the claim checked
/// case by case.
pub open spec fn dart_dir_claim(e: int, u: int) -> bool {
    let i = edge_pair(e).0;
    let j = edge_pair(e).1;
    let th = norm360(dart_offset(e) + 36 * u) / 36;
    &&& qeq(
        rot36(dart_point(j), u).x.minus(rot36(dart_point(i), u).x),
        len_value(dart_len(e)).times(cos_t(th)),
    )
    &&& qeq(
        rot36(dart_point(j), u).y.minus(rot36(dart_point(i), u).y),
        len_value(dart_len(e)).times(sin_t(th)),
    )
}

/// The kite counterpart of `dart_dir_claim`.
pub open spec fn kite_dir_claim(e: int, u: int) -> bool {
    let i = edge_pair(e).0;
    let j = edge_pair(e).1;
    let th = norm360(kite_offset(e) + 36 * u) / 36;
    &&& qeq(
        rot36(kite_point(j), u).x.minus(rot36(kite_point(i), u).x),
        len_value(kite_len(e)).times(cos_t(th)),
    )
    &&& qeq(
        rot36(kite_point(j), u).y.minus(rot36(kite_point(i), u).y),
        len_value(kite_len(e)).times(sin_t(th)),
    )
}

/// The placement offset for dart edge `e` is the negated midpoint of that
/// edge's template points, so the glued edge's midpoint cancels back to
/// the anchor: the claim checked case by case.
pub open spec fn dart_join_claim(e: int, u: int) -> bool {
    let i = edge_pair(e).0;
    let j = edge_pair(e).1;
    let rd = rot36(dart_delta(e), u);
    let ri = rot36(dart_point(i), u);
    let rj = rot36(dart_point(j), u);
    &&& is_qzero(rd.x.doubled().plus(ri.x.plus(rj.x)))
    &&& is_qzero(rd.y.doubled().plus(ri.y.plus(rj.y)))
}

/// The kite counterpart of `dart_join_claim`.
pub open spec fn kite_join_claim(e: int, u: int) -> bool {
    let i = edge_pair(e).0;
    let j = edge_pair(e).1;
    let rd = rot36(kite_delta(e), u);
    let ri = rot36(kite_point(i), u);
    let rj = rot36(kite_point(j), u);
    &&& is_qzero(rd.x.doubled().plus(ri.x.plus(rj.x)))
    &&& is_qzero(rd.y.doubled().plus(ri.y.plus(rj.y)))
}





#[verifier::rlimit(100)]
#[verifier::spinoff_prover]
proof fn lemma_world_diff_fixed(x: Quartic, y: Quartic, pi: Vec2, pj: Vec2, u: int)
    requires
        x.k <= 40,
        y.k <= 40,
        pi.x.k <= 2,
        pi.y.k <= 2,
        pj.x.k <= 2,
        pj.y.k <= 2,
    ensures
        s_world(x, y, pj, u).x.minus(s_world(x, y, pi, u).x).fixed() == fsub(
            rot36(pj, u).x.fixed(),
            rot36(pi, u).x.fixed(),
        ),
        s_world(x, y, pj, u).y.minus(s_world(x, y, pi, u).y).fixed() == fsub(
            rot36(pj, u).y.fixed(),
            rot36(pi, u).y.fixed(),
        ),
        s_world(x, y, pj, u).x.minus(s_world(x, y, pi, u).x).k <= 42,
        s_world(x, y, pj, u).y.minus(s_world(x, y, pi, u).y).k <= 42,
{
    let ri = rot36(pi, u);
    let rj = rot36(pj, u);
    lemma_fixed_plus(x, ri.x);
    lemma_fixed_plus(x, rj.x);
    lemma_fixed_minus(x.plus(rj.x), x.plus(ri.x));
    lemma_fixed_plus(y, ri.y);
    lemma_fixed_plus(y, rj.y);
    lemma_fixed_minus(y.plus(rj.y), y.plus(ri.y));
}

/// Reference-scale form of a glued edge's midpoint, decomposed into the
/// anchor point, the rotated placement offset and the rotated template
/// pair.
#[verifier::rlimit(100)]
#[verifier::spinoff_prover]
proof fn lemma_glued_mid_fixed(delta: Vec2, turn: int, p: Vec2, ang: int, pi: Vec2, pj: Vec2)
    requires
        delta.x.k <= 2,
        delta.y.k <= 2,
        pi.x.k <= 2,
        pi.y.k <= 2,
        pj.x.k <= 2,
        pj.y.k <= 2,
        p.x.k <= 40,
        p.y.k <= 40,
    ensures
        ({
            let t = s_placed(delta, turn, p, ang);
            let u = t.angle / 36;
            let mid = s_world(t.x, t.y, pi, u).plus(s_world(t.x, t.y, pj, u)).halved();
            &&& fscale(2, mid.x.fixed()) == fadd(
                fscale(2, p.x.fixed()),
                fadd(
                    fscale(2, rot36(delta, u).x.fixed()),
                    fadd(rot36(pi, u).x.fixed(), rot36(pj, u).x.fixed()),
                ),
            )
            &&& fscale(2, mid.y.fixed()) == fadd(
                fscale(2, p.y.fixed()),
                fadd(
                    fscale(2, rot36(delta, u).y.fixed()),
                    fadd(rot36(pi, u).y.fixed(), rot36(pj, u).y.fixed()),
                ),
            )
            &&& mid.x.k <= 42
            &&& mid.y.k <= 42
        }),
{
    let t = s_placed(delta, turn, p, ang);
    let u = t.angle / 36;
    let rd = rot36(delta, u);
    let ri = rot36(pi, u);
    let rj = rot36(pj, u);
    lemma_fixed_plus(p.x, rd.x);
    lemma_fixed_plus(p.y, rd.y);
    lemma_fixed_plus(t.x, ri.x);
    lemma_fixed_plus(t.y, ri.y);
    lemma_fixed_plus(t.x, rj.x);
    lemma_fixed_plus(t.y, rj.y);
    let vi = s_world(t.x, t.y, pi, u);
    let vj = s_world(t.x, t.y, pj, u);
    lemma_fixed_plus(vi.x, vj.x);
    lemma_fixed_plus(vi.y, vj.y);
    lemma_fixed_halved(vi.x.plus(vj.x));
    lemma_fixed_halved(vi.y.plus(vj.y));
}

/// The direction angle table is exact: for a dart on the 36-degree grid,
/// the vector from one endpoint of edge `e` to the other is its tabulated
/// length times the unit vector of `edge_angle(e)` degrees.
#[verifier::rlimit(100)]
#[verifier::spinoff_prover]
pub proof fn lemma_dart_edge_direction(t: TilePose, e: int)
    requires
        1 <= e <= 4,
        0 <= t.angle < 360,
        t.angle % 36 == 0,
        t.x.k <= 40,
        t.y.k <= 40,
    ensures
        ({
            let i = edge_pair(e).0;
            let j = edge_pair(e).1;
            let th = s_dart_edge_angle(t, e) / 36;
            &&& qeq(
                s_dart_vertex(t, j).x.minus(s_dart_vertex(t, i).x),
                len_value(dart_len(e)).times(cos_t(th)),
            )
            &&& qeq(
                s_dart_vertex(t, j).y.minus(s_dart_vertex(t, i).y),
                len_value(dart_len(e)).times(sin_t(th)),
            )
        }),
{
    let u = t.angle / 36;
    lemma_fundamental_div_mod(t.angle, 36);
    let i = edge_pair(e).0;
    let j = edge_pair(e).1;
    lemma_dart_tables_small(i, e);
    lemma_dart_tables_small(j, e);
    lemma_world_diff_fixed(t.x, t.y, dart_point(i), dart_point(j), u);
    lemma_dart_dir_table(e, u);
    let ri = rot36(dart_point(i), u);
    let rj = rot36(dart_point(j), u);
    lemma_fixed_minus(rj.x, ri.x);
    lemma_fixed_minus(rj.y, ri.y);
    lemma_qeq_from_fixed(
        s_dart_vertex(t, j).x.minus(s_dart_vertex(t, i).x),
        rj.x.minus(ri.x),
    );
    lemma_qeq_from_fixed(
        s_dart_vertex(t, j).y.minus(s_dart_vertex(t, i).y),
        rj.y.minus(ri.y),
    );
    lemma_qeq_trans(
        s_dart_vertex(t, j).x.minus(s_dart_vertex(t, i).x),
        rj.x.minus(ri.x),
        len_value(dart_len(e)).times(cos_t(s_dart_edge_angle(t, e) / 36)),
    );
    lemma_qeq_trans(
        s_dart_vertex(t, j).y.minus(s_dart_vertex(t, i).y),
        rj.y.minus(ri.y),
        len_value(dart_len(e)).times(sin_t(s_dart_edge_angle(t, e) / 36)),
    );
}

/// The kite counterpart of `lemma_dart_edge_direction`.
#[verifier::rlimit(100)]
#[verifier::spinoff_prover]
pub proof fn lemma_kite_edge_direction(t: TilePose, e: int)
    requires
        1 <= e <= 4,
        0 <= t.angle < 360,
        t.angle % 36 == 0,
        t.x.k <= 40,
        t.y.k <= 40,
    ensures
        ({
            let i = edge_pair(e).0;
            let j = edge_pair(e).1;
            let th = s_kite_edge_angle(t, e) / 36;
            &&& qeq(
                s_kite_vertex(t, j).x.minus(s_kite_vertex(t, i).x),
                len_value(kite_len(e)).times(cos_t(th)),
            )
            &&& qeq(
                s_kite_vertex(t, j).y.minus(s_kite_vertex(t, i).y),
                len_value(kite_len(e)).times(sin_t(th)),
            )
        }),
{
    let u = t.angle / 36;
    lemma_fundamental_div_mod(t.angle, 36);
    let i = edge_pair(e).0;
    let j = edge_pair(e).1;
    lemma_kite_tables_small(i, e);
    lemma_kite_tables_small(j, e);
    lemma_world_diff_fixed(t.x, t.y, kite_point(i), kite_point(j), u);
    lemma_kite_dir_table(e, u);
    let ri = rot36(kite_point(i), u);
    let rj = rot36(kite_point(j), u);
    lemma_fixed_minus(rj.x, ri.x);
    lemma_fixed_minus(rj.y, ri.y);
    lemma_qeq_from_fixed(
        s_kite_vertex(t, j).x.minus(s_kite_vertex(t, i).x),
        rj.x.minus(ri.x),
    );
    lemma_qeq_from_fixed(
        s_kite_vertex(t, j).y.minus(s_kite_vertex(t, i).y),
        rj.y.minus(ri.y),
    );
    lemma_qeq_trans(
        s_kite_vertex(t, j).x.minus(s_kite_vertex(t, i).x),
        rj.x.minus(ri.x),
        len_value(kite_len(e)).times(cos_t(s_kite_edge_angle(t, e) / 36)),
    );
    lemma_qeq_trans(
        s_kite_vertex(t, j).y.minus(s_kite_vertex(t, i).y),
        rj.y.minus(ri.y),
        len_value(kite_len(e)).times(sin_t(s_kite_edge_angle(t, e) / 36)),
    );
}

/// An edge's midpoint is the arithmetic mean of its two endpoints, by
/// definition of the derived edge geometry: stated once for each shape.
pub proof fn lemma_dart_edge_center_is_midpoint(t: TilePose, e: int)
    ensures
        s_dart_edge_center(t, e) == s_dart_vertex(t, edge_pair(e).0).plus(
            s_dart_vertex(t, edge_pair(e).1),
        ).halved(),
{
}

pub proof fn lemma_kite_edge_center_is_midpoint(t: TilePose, e: int)
    ensures
        s_kite_edge_center(t, e) == s_kite_vertex(t, edge_pair(e).0).plus(
            s_kite_vertex(t, edge_pair(e).1),
        ).halved(),
{
}

/// Internal-angle closure of the dart (36, 72, 36, 216 degrees): turning
/// by 540 minus the internal angle carries each edge direction to the
/// next, and four such turns come back to the start modulo 360.
pub proof fn lemma_dart_angle_closure(t: TilePose)
    ensures
        norm360(s_dart_edge_angle(t, 1) + 540 - 36) == s_dart_edge_angle(t, 2),
        norm360(s_dart_edge_angle(t, 2) + 540 - 72) == s_dart_edge_angle(t, 3),
        norm360(s_dart_edge_angle(t, 3) + 540 - 36) == s_dart_edge_angle(t, 4),
        norm360(s_dart_edge_angle(t, 4) + 540 - 216) == s_dart_edge_angle(t, 1),
        ((540 - 36) + (540 - 72) + (540 - 36) + (540 - 216)) % 360 == 0,
{
    lemma_norm360_add(252 + t.angle, 504);
    lemma_norm360_vanish(2, 36 + t.angle);
    lemma_norm360_add(36 + t.angle, 468);
    lemma_norm360_vanish(1, 144 + t.angle);
    lemma_norm360_add(144 + t.angle, 504);
    lemma_norm360_vanish(1, 288 + t.angle);
    lemma_norm360_add(288 + t.angle, 324);
    lemma_norm360_vanish(1, 252 + t.angle);
}

/// Internal-angle closure of the kite (72, 144, 72, 72 degrees).
pub proof fn lemma_kite_angle_closure(t: TilePose)
    ensures
        norm360(s_kite_edge_angle(t, 1) + 540 - 72) == s_kite_edge_angle(t, 2),
        norm360(s_kite_edge_angle(t, 2) + 540 - 144) == s_kite_edge_angle(t, 3),
        norm360(s_kite_edge_angle(t, 3) + 540 - 72) == s_kite_edge_angle(t, 4),
        norm360(s_kite_edge_angle(t, 4) + 540 - 72) == s_kite_edge_angle(t, 1),
        ((540 - 72) + (540 - 144) + (540 - 72) + (540 - 72)) % 360 == 0,
{
    lemma_norm360_add(324 + t.angle, 468);
    lemma_norm360_vanish(2, 72 + t.angle);
    lemma_norm360_add(72 + t.angle, 396);
    lemma_norm360_vanish(1, 108 + t.angle);
    lemma_norm360_add(108 + t.angle, 468);
    lemma_norm360_vanish(1, 216 + t.angle);
    lemma_norm360_add(216 + t.angle, 468);
    lemma_norm360_vanish(1, 324 + t.angle);
}

/// Gluing a dart by edge `e` (2, 3 or 4) against an anchor edge lands that
/// edge exactly on the anchor: its midpoint coincides with the anchor
/// point, and its direction is the anchor direction turned by 180
/// degrees.  (Gluing by edge 1 also lands midpoint on midpoint, but the
/// placement table orients that edge parallel to the anchor instead.)
#[verifier::rlimit(100)]
#[verifier::spinoff_prover]
pub proof fn lemma_dart_placement_joins(e: int, p: Vec2, ang: int)
    requires
        2 <= e <= 4,
        ang % 36 == 0,
        p.x.k <= 40,
        p.y.k <= 40,
    ensures
        ({
            let t = s_place_dart(e, p, ang);
            &&& qeq(s_dart_edge_center(t, e).x, p.x)
            &&& qeq(s_dart_edge_center(t, e).y, p.y)
            &&& s_dart_edge_angle(t, e) == norm360(ang + 180)
        }),
{
    let t = s_place_dart(e, p, ang);
    let na = norm360(ang + dart_turn(e));
    lemma_norm360_range(ang + dart_turn(e));
    lemma_add_mod_noop(ang, dart_turn(e), 36);
    lemma_norm360_mod36(ang + dart_turn(e));
    lemma_fundamental_div_mod(na, 36);
    let u = na / 36;
    let i = edge_pair(e).0;
    let j = edge_pair(e).1;
    lemma_dart_tables_small(i, e);
    lemma_dart_tables_small(j, e);
    lemma_glued_mid_fixed(dart_delta(e), dart_turn(e), p, ang, dart_point(i), dart_point(j));
    lemma_dart_join_table(e, u);
    let rd = rot36(dart_delta(e), u);
    let ri = rot36(dart_point(i), u);
    let rj = rot36(dart_point(j), u);
    lemma_fixed_doubled(rd.x);
    lemma_fixed_plus(ri.x, rj.x);
    lemma_fixed_plus(rd.x.doubled(), ri.x.plus(rj.x));
    lemma_fixed_doubled(rd.y);
    lemma_fixed_plus(ri.y, rj.y);
    lemma_fixed_plus(rd.y.doubled(), ri.y.plus(rj.y));
    assert(rd.x.doubled().plus(ri.x.plus(rj.x)).fixed() == fzero());
    assert(rd.y.doubled().plus(ri.y.plus(rj.y)).fixed() == fzero());
    let mid = s_dart_edge_center(t, e);
    assert(mid.x.fixed() == p.x.fixed());
    assert(mid.y.fixed() == p.y.fixed());
    lemma_qeq_from_fixed(mid.x, p.x);
    lemma_qeq_from_fixed(mid.y, p.y);
    lemma_norm360_add(ang + dart_turn(e), dart_offset(e));
    if e == 4 {
        lemma_norm360_vanish(1, ang + 180);
    }
}

/// Gluing a kite by any of its four edges against an anchor edge lands
/// that edge exactly on the anchor, midpoint on midpoint, running the
/// opposite way.
#[verifier::rlimit(100)]
#[verifier::spinoff_prover]
pub proof fn lemma_kite_placement_joins(e: int, p: Vec2, ang: int)
    requires
        1 <= e <= 4,
        ang % 36 == 0,
        p.x.k <= 40,
        p.y.k <= 40,
    ensures
        ({
            let t = s_place_kite(e, p, ang);
            &&& qeq(s_kite_edge_center(t, e).x, p.x)
            &&& qeq(s_kite_edge_center(t, e).y, p.y)
            &&& s_kite_edge_angle(t, e) == norm360(ang + 180)
        }),
{
    let t = s_place_kite(e, p, ang);
    let na = norm360(ang + kite_turn(e));
    lemma_norm360_range(ang + kite_turn(e));
    lemma_add_mod_noop(ang, kite_turn(e), 36);
    lemma_norm360_mod36(ang + kite_turn(e));
    lemma_fundamental_div_mod(na, 36);
    let u = na / 36;
    let i = edge_pair(e).0;
    let j = edge_pair(e).1;
    lemma_kite_tables_small(i, e);
    lemma_kite_tables_small(j, e);
    lemma_glued_mid_fixed(kite_delta(e), kite_turn(e), p, ang, kite_point(i), kite_point(j));
    lemma_kite_join_table(e, u);
    let rd = rot36(kite_delta(e), u);
    let ri = rot36(kite_point(i), u);
    let rj = rot36(kite_point(j), u);
    lemma_fixed_doubled(rd.x);
    lemma_fixed_plus(ri.x, rj.x);
    lemma_fixed_plus(rd.x.doubled(), ri.x.plus(rj.x));
    lemma_fixed_doubled(rd.y);
    lemma_fixed_plus(ri.y, rj.y);
    lemma_fixed_plus(rd.y.doubled(), ri.y.plus(rj.y));
    assert(rd.x.doubled().plus(ri.x.plus(rj.x)).fixed() == fzero());
    assert(rd.y.doubled().plus(ri.y.plus(rj.y)).fixed() == fzero());
    let mid = s_kite_edge_center(t, e);
    assert(mid.x.fixed() == p.x.fixed());
    assert(mid.y.fixed() == p.y.fixed());
    lemma_qeq_from_fixed(mid.x, p.x);
    lemma_qeq_from_fixed(mid.y, p.y);
    lemma_norm360_add(ang + kite_turn(e), kite_offset(e));
    if e == 1 || e == 4 {
        lemma_norm360_vanish(1, ang + 180);
    }
}

} // verus!

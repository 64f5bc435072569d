//! Shared tile substrate: exact points, poses, the rotation table for the
//! ten orientations that are multiples of 36 degrees, and edge addressing.

use crate::coord::{
    lemma_bnd_flat, lemma_bnd_halved, lemma_bnd_minus, lemma_bnd_mono, lemma_bnd_plus,
    lemma_bnd_times, lemma_pow2_le, Coord, Quartic,
};
use crate::degrees::{lemma_norm360_mod36, norm360, norm_deg};
use vstd::arithmetic::div_mod::{lemma_add_mod_noop, lemma_fundamental_div_mod};
use vstd::arithmetic::power2::*;
use vstd::prelude::*;

verus! {

/// Mathematical model of a point in the plane.
pub ghost struct Vec2 {
    pub x: Quartic,
    pub y: Quartic,
}

/// Mathematical model of a tile's pose: its center and its orientation in
/// integer degrees.
pub ghost struct TilePose {
    pub x: Quartic,
    pub y: Quartic,
    pub angle: int,
}

impl Vec2 {
    pub open spec fn plus(self, o: Vec2) -> Vec2 {
        Vec2 { x: self.x.plus(o.x), y: self.y.plus(o.y) }
    }

    pub open spec fn halved(self) -> Vec2 {
        Vec2 { x: self.x.halved(), y: self.y.halved() }
    }
}

impl TilePose {
    /// The tile's center as a point.
    pub open spec fn center(self) -> Vec2 {
        Vec2 { x: self.x, y: self.y }
    }
}

/// Shorthand spec constructor for a scalar.
pub open spec fn qc(a: int, b: int, c: int, d: int, k: nat) -> Quartic {
    Quartic { a: a, b: b, c: c, d: d, k: k }
}

/// Shorthand spec constructor for a point.
pub open spec fn vc(x: Quartic, y: Quartic) -> Vec2 {
    Vec2 { x: x, y: y }
}

/// Cosine of 36*t degrees, exactly, for t in 0..10.  Every such cosine is a
/// quarter-integer combination of 1 and sqrt(5).
pub open spec fn cos_t(t: int) -> Quartic {
    if t == 0 {
        qc(1, 0, 0, 0, 0)
    } else if t == 1 {
        qc(1, 1, 0, 0, 2)
    } else if t == 2 {
        qc(-1, 1, 0, 0, 2)
    } else if t == 3 {
        qc(1, -1, 0, 0, 2)
    } else if t == 4 {
        qc(-1, -1, 0, 0, 2)
    } else if t == 5 {
        qc(-1, 0, 0, 0, 0)
    } else if t == 6 {
        qc(-1, -1, 0, 0, 2)
    } else if t == 7 {
        qc(1, -1, 0, 0, 2)
    } else if t == 8 {
        qc(-1, 1, 0, 0, 2)
    } else {
        qc(1, 1, 0, 0, 2)
    }
}

/// Sine of 36*t degrees, exactly, for t in 0..10: a half-integer
/// combination of sin36 and sqrt(5)*sin36.
pub open spec fn sin_t(t: int) -> Quartic {
    if t == 0 {
        qc(0, 0, 0, 0, 0)
    } else if t == 1 {
        qc(0, 0, 1, 0, 0)
    } else if t == 2 {
        qc(0, 0, 1, 1, 1)
    } else if t == 3 {
        qc(0, 0, 1, 1, 1)
    } else if t == 4 {
        qc(0, 0, 1, 0, 0)
    } else if t == 5 {
        qc(0, 0, 0, 0, 0)
    } else if t == 6 {
        qc(0, 0, -1, 0, 0)
    } else if t == 7 {
        qc(0, 0, -1, -1, 1)
    } else if t == 8 {
        qc(0, 0, -1, -1, 1)
    } else {
        qc(0, 0, -1, 0, 0)
    }
}

/// Rotation of a point by 36*t degrees about the origin: the standard
/// rotation matrix, evaluated exactly.
pub open spec fn rot36(p: Vec2, t: int) -> Vec2 {
    Vec2 {
        x: p.x.times(cos_t(t)).minus(p.y.times(sin_t(t))),
        y: p.x.times(sin_t(t)).plus(p.y.times(cos_t(t))),
    }
}

/// The ordered pair of vertex indices bounding edge `e` in {1, 2, 3, 4}.
pub open spec fn edge_pair(e: int) -> (int, int) {
    if e == 1 {
        (0, 1)
    } else if e == 2 {
        (1, 2)
    } else if e == 3 {
        (2, 3)
    } else {
        (3, 0)
    }
}

/// An exact point in the plane.
#[derive(Clone, Copy, PartialEq, Eq, Structural, Debug)]
pub struct Point {
    pub x: Coord,
    pub y: Coord,
}

impl View for Point {
    type V = Vec2;

    open spec fn view(&self) -> Vec2 {
        Vec2 { x: self.x@, y: self.y@ }
    }
}

/// The two length classes of tile edges: short edges measure phi, long
/// edges phi^2, in the scale of the vertex templates.
#[allow(non_camel_case_types)]
#[derive(Clone, Copy, PartialEq, Eq, Structural, Debug)]
pub enum EdgeLength {
    SHORT,
    LONG,
}

/// The exact measure of each length class, in the scale of the vertex
/// templates: short edges measure phi, long edges phi^2.
pub open spec fn len_value(l: EdgeLength) -> Quartic {
    match l {
        EdgeLength::SHORT => qc(1, 1, 0, 0, 1),
        EdgeLength::LONG => qc(3, 1, 0, 0, 1),
    }
}

/// The one failure the engine knows: an edge index outside {1, 2, 3, 4},
/// carried along for diagnosis.  It is always a caller bug, never a
/// recoverable runtime condition.
#[derive(Clone, Copy, PartialEq, Eq, Structural, Debug)]
pub enum PenroseError {
    InvalidEdgeIndex(i32),
}

/// Maps an edge index in {1, 2, 3, 4} to the ordered pair of vertex indices
/// bounding it; any other index is rejected.
pub fn edge_index_to_vertex_tuple(e: i32) -> (r: Result<(usize, usize), PenroseError>)
    ensures
        match r {
            Ok(p) => 1 <= e <= 4 && p.0 == edge_pair(e as int).0 && p.1 == edge_pair(e as int).1,
            Err(err) => !(1 <= e <= 4) && err == PenroseError::InvalidEdgeIndex(e),
        },
{
    match e {
        1 => Ok((0, 1)),
        2 => Ok((1, 2)),
        3 => Ok((2, 3)),
        4 => Ok((3, 0)),
        _ => Err(PenroseError::InvalidEdgeIndex(e)),
    }
}

/// Executable cosine table entry for 36*t degrees.
pub fn cos_coord(t: i32) -> (r: Coord)
    requires
        0 <= t < 10,
    ensures
        r@ == cos_t(t as int),
        r@.bnd(0),
        r@.k <= 2,
{
    proof {
        lemma2_to64();
    }
    match t {
        0 => Coord { a: 1, b: 0, c: 0, d: 0, k: 0 },
        1 => Coord { a: 1, b: 1, c: 0, d: 0, k: 2 },
        2 => Coord { a: -1, b: 1, c: 0, d: 0, k: 2 },
        3 => Coord { a: 1, b: -1, c: 0, d: 0, k: 2 },
        4 => Coord { a: -1, b: -1, c: 0, d: 0, k: 2 },
        5 => Coord { a: -1, b: 0, c: 0, d: 0, k: 0 },
        6 => Coord { a: -1, b: -1, c: 0, d: 0, k: 2 },
        7 => Coord { a: 1, b: -1, c: 0, d: 0, k: 2 },
        8 => Coord { a: -1, b: 1, c: 0, d: 0, k: 2 },
        _ => Coord { a: 1, b: 1, c: 0, d: 0, k: 2 },
    }
}

/// Executable sine table entry for 36*t degrees.
pub fn sin_coord(t: i32) -> (r: Coord)
    requires
        0 <= t < 10,
    ensures
        r@ == sin_t(t as int),
        r@.bnd(0),
        r@.k <= 1,
{
    proof {
        lemma2_to64();
    }
    match t {
        0 => Coord { a: 0, b: 0, c: 0, d: 0, k: 0 },
        1 => Coord { a: 0, b: 0, c: 1, d: 0, k: 0 },
        2 => Coord { a: 0, b: 0, c: 1, d: 1, k: 1 },
        3 => Coord { a: 0, b: 0, c: 1, d: 1, k: 1 },
        4 => Coord { a: 0, b: 0, c: 1, d: 0, k: 0 },
        5 => Coord { a: 0, b: 0, c: 0, d: 0, k: 0 },
        6 => Coord { a: 0, b: 0, c: -1, d: 0, k: 0 },
        7 => Coord { a: 0, b: 0, c: -1, d: -1, k: 1 },
        8 => Coord { a: 0, b: 0, c: -1, d: -1, k: 1 },
        _ => Coord { a: 0, b: 0, c: -1, d: 0, k: 0 },
    }
}

/// Rotate a small fixed point (a vertex template or a placement offset) by
/// 36*t degrees, exactly.
#[verifier::rlimit(30)]
pub fn rot_point(p: &Point, t: i32) -> (r: Point)
    requires
        0 <= t < 10,
        p.x@.bnd(1),
        p.y@.bnd(1),
        p.x@.k <= 2,
        p.y@.k <= 2,
    ensures
        r@ == rot36(p@, t as int),
        r.x@.bnd(7),
        r.y@.bnd(7),
        r.x@.k <= 7,
        r.y@.k <= 7,
{
    let c = cos_coord(t);
    let s = sin_coord(t);
    proof {
        lemma2_to64();
        lemma_pow2_le(1 + p.x@.k, 37);
        lemma_pow2_le(1 + p.y@.k, 37);
        lemma_pow2_le(0 + c@.k, 18);
        lemma_pow2_le(0 + s@.k, 18);
        lemma_bnd_times(p.x@, c@, 1, 0);
        lemma_bnd_times(p.x@, s@, 1, 0);
        lemma_bnd_times(p.y@, c@, 1, 0);
        lemma_bnd_times(p.y@, s@, 1, 0);
        lemma_bnd_mono(p.x@.times(c@), 5, 28);
        lemma_bnd_mono(p.x@.times(s@), 5, 28);
        lemma_bnd_mono(p.y@.times(c@), 5, 28);
        lemma_bnd_mono(p.y@.times(s@), 5, 28);
        lemma_bnd_minus(p.x@.times(c@), p.y@.times(s@), 5);
        lemma_bnd_plus(p.x@.times(s@), p.y@.times(c@), 5);
        lemma_bnd_mono(p.x@.times(c@).minus(p.y@.times(s@)), 6, 7);
        lemma_bnd_mono(p.x@.times(s@).plus(p.y@.times(c@)), 6, 7);
    }
    let xc = p.x.mul(&c);
    let xs = p.x.mul(&s);
    let yc = p.y.mul(&c);
    let ys = p.y.mul(&s);
    Point { x: xc.sub(&ys), y: xs.add(&yc) }
}

/// Bound on a rotated point, for overflow tracking: rotating adds at most
/// five magnitude bits and five scale bits.
pub proof fn lemma_rot36_bnd(p: Vec2, t: int, e: nat, m: nat)
    requires
        p.x.bnd(e),
        p.y.bnd(e),
        p.x.k <= m,
        p.y.k <= m,
    ensures
        rot36(p, t).x.bnd((e + 5) as nat),
        rot36(p, t).y.bnd((e + 5) as nat),
        rot36(p, t).x.k <= m + 5,
        rot36(p, t).y.k <= m + 5,
{
    lemma2_to64();
    assert(cos_t(t).bnd(0) && cos_t(t).k <= 2);
    assert(sin_t(t).bnd(0) && sin_t(t).k <= 1);
    lemma_bnd_times(p.x, cos_t(t), e, 0);
    lemma_bnd_times(p.x, sin_t(t), e, 0);
    lemma_bnd_times(p.y, cos_t(t), e, 0);
    lemma_bnd_times(p.y, sin_t(t), e, 0);
    lemma_bnd_minus(p.x.times(cos_t(t)), p.y.times(sin_t(t)), (e + 4) as nat);
    lemma_bnd_plus(p.x.times(sin_t(t)), p.y.times(cos_t(t)), (e + 4) as nat);
}

/// A tile corner in world coordinates: the center plus the rotated local
/// template point.
pub open spec fn s_world(cx: Quartic, cy: Quartic, tmpl: Vec2, t: int) -> Vec2 {
    vc(cx, cy).plus(rot36(tmpl, t))
}

/// Compute a tile corner in world coordinates.
pub fn world_point(cx: &Coord, cy: &Coord, tmpl: &Point, t: i32) -> (r: Point)
    requires
        0 <= t < 10,
        tmpl.x@.bnd(1),
        tmpl.y@.bnd(1),
        tmpl.x@.k <= 2,
        tmpl.y@.k <= 2,
        cx@.bnd(26),
        cy@.bnd(26),
        cx@.k <= 30,
        cy@.k <= 30,
    ensures
        r@ == s_world(cx@, cy@, tmpl@, t as int),
{
    let rt = rot_point(tmpl, t);
    proof {
        lemma_bnd_mono(rt.x@, 7, 28);
        lemma_bnd_mono(rt.y@, 7, 28);
        lemma_bnd_mono(cx@, 26, 28);
        lemma_bnd_mono(cy@, 26, 28);
    }
    Point { x: cx.add(&rt.x), y: cy.add(&rt.y) }
}

/// The pose of a tile glued against an anchor edge: the anchor angle plus
/// the per-edge turn gives the new orientation, and the new center is the
/// anchor point plus the per-edge local offset rotated into that
/// orientation.
pub open spec fn s_placed(delta: Vec2, turn: int, p: Vec2, ang: int) -> TilePose {
    let na: int = norm360(ang + turn);
    let c: Vec2 = p.plus(rot36(delta, na / 36));
    TilePose { x: c.x, y: c.y, angle: na }
}

/// Compute the center and orientation of a tile glued against an anchor
/// edge.
pub fn placed_at(delta: &Point, turn: i32, pt: &Point, ang: i32) -> (r: (Point, i32))
    requires
        0 <= ang < 360,
        ang % 36 == 0,
        0 <= turn < 360,
        turn % 36 == 0,
        delta.x@.bnd(1),
        delta.y@.bnd(1),
        delta.x@.k <= 2,
        delta.y@.k <= 2,
        pt.x@.bnd(26),
        pt.y@.bnd(26),
        pt.x@.k <= 30,
        pt.y@.k <= 30,
    ensures
        r.0@ == s_placed(delta@, turn as int, pt@, ang as int).center(),
        r.1 == s_placed(delta@, turn as int, pt@, ang as int).angle,
        0 <= r.1 < 360,
        r.1 % 36 == 0,
{
    let na: i32 = norm_deg(ang as i64 + turn as i64);
    proof {
        lemma_add_mod_noop(ang as int, turn as int, 36);
        lemma_norm360_mod36(ang as int + turn as int);
        lemma_fundamental_div_mod(na as int, 36);
    }
    let t: i32 = na / 36;
    let rd = rot_point(delta, t);
    proof {
        lemma_bnd_mono(rd.x@, 7, 28);
        lemma_bnd_mono(rd.y@, 7, 28);
        lemma_bnd_mono(pt.x@, 26, 28);
        lemma_bnd_mono(pt.y@, 26, 28);
    }
    (Point { x: pt.x.add(&rd.x), y: pt.y.add(&rd.y) }, na)
}

/// Bound tracking for the midpoint of a glued edge: one placement step
/// grows the magnitude bound by one bit and the scale by one bit.
pub proof fn lemma_glued_mid_bnd(cx: Quartic, cy: Quartic, pi: Vec2, pj: Vec2, t: int, g: nat, m: nat)
    requires
        pi.x.bnd(1),
        pi.y.bnd(1),
        pj.x.bnd(1),
        pj.y.bnd(1),
        pi.x.k <= 2,
        pi.y.k <= 2,
        pj.x.k <= 2,
        pj.y.k <= 2,
        7 <= g,
        7 <= m,
        cx.bnd(g),
        cy.bnd(g),
        cx.k <= m,
        cy.k <= m,
    ensures
        s_world(cx, cy, pi, t).plus(s_world(cx, cy, pj, t)).halved().x.bnd((g + 1) as nat),
        s_world(cx, cy, pi, t).plus(s_world(cx, cy, pj, t)).halved().y.bnd((g + 1) as nat),
        s_world(cx, cy, pi, t).plus(s_world(cx, cy, pj, t)).halved().x.k <= m + 1,
        s_world(cx, cy, pi, t).plus(s_world(cx, cy, pj, t)).halved().y.k <= m + 1,
{
    lemma_rot36_bnd(pi, t, 1, 2);
    lemma_rot36_bnd(pj, t, 1, 2);
    lemma_bnd_mono(rot36(pi, t).x, 6, g);
    lemma_bnd_mono(rot36(pi, t).y, 6, g);
    lemma_bnd_mono(rot36(pj, t).x, 6, g);
    lemma_bnd_mono(rot36(pj, t).y, 6, g);
    lemma_bnd_plus(cx, rot36(pi, t).x, g);
    lemma_bnd_plus(cy, rot36(pi, t).y, g);
    lemma_bnd_plus(cx, rot36(pj, t).x, g);
    lemma_bnd_plus(cy, rot36(pj, t).y, g);
    let vi = s_world(cx, cy, pi, t);
    let vj = s_world(cx, cy, pj, t);
    lemma_bnd_plus(vi.x, vj.x, (g + 1) as nat);
    lemma_bnd_plus(vi.y, vj.y, (g + 1) as nat);
    lemma_bnd_halved(vi.x.plus(vj.x), (g + 1) as nat);
    lemma_bnd_halved(vi.y.plus(vj.y), (g + 1) as nat);
}

/// Bound tracking for a placed tile's center: gluing grows the magnitude
/// bound by one bit and keeps the scale.
pub proof fn lemma_placed_bnd(delta: Vec2, turn: int, p: Vec2, ang: int, g: nat, m: nat)
    requires
        delta.x.bnd(1),
        delta.y.bnd(1),
        delta.x.k <= 2,
        delta.y.k <= 2,
        7 <= g,
        7 <= m,
        p.x.bnd(g),
        p.y.bnd(g),
        p.x.k <= m,
        p.y.k <= m,
    ensures
        s_placed(delta, turn, p, ang).x.bnd((g + 1) as nat),
        s_placed(delta, turn, p, ang).y.bnd((g + 1) as nat),
        s_placed(delta, turn, p, ang).x.k <= m,
        s_placed(delta, turn, p, ang).y.k <= m,
{
    let t = norm360(ang + turn) / 36;
    lemma_rot36_bnd(delta, t, 1, 2);
    lemma_bnd_mono(rot36(delta, t).x, 6, g);
    lemma_bnd_mono(rot36(delta, t).y, 6, g);
    lemma_bnd_plus(p.x, rot36(delta, t).x, g);
    lemma_bnd_plus(p.y, rot36(delta, t).y, g);
}

/// Uniform bound on a pose's center: magnitude and scale both within `g`.
pub open spec fn tile_bnd(t: TilePose, g: nat) -> bool {
    &&& t.x.bnd(g)
    &&& t.y.bnd(g)
    &&& t.x.k <= g
    &&& t.y.k <= g
}

/// Loosening a pose bound.
pub proof fn lemma_tile_bnd_mono(t: TilePose, g1: nat, g2: nat)
    requires
        tile_bnd(t, g1),
        g1 <= g2,
    ensures
        tile_bnd(t, g2),
{
    lemma_bnd_mono(t.x, g1, g2);
    lemma_bnd_mono(t.y, g1, g2);
}

/// A point mapped into presentation coordinates: scaled, then shifted.
pub open spec fn s_scaled(v: Vec2, xo: Quartic, yo: Quartic, sc: Quartic) -> Vec2 {
    Vec2 { x: v.x.times(sc).plus(xo), y: v.y.times(sc).plus(yo) }
}

/// Map a world point into presentation coordinates, exactly.
pub fn scale_shift(v: &Point, xoff: &Coord, yoff: &Coord, scale: &Coord) -> (r: Point)
    requires
        v.x@.bnd(13),
        v.y@.bnd(13),
        v.x@.k <= 8,
        v.y@.k <= 8,
        scale@.bnd(6),
        scale@.k <= 8,
        xoff@.bnd(24),
        yoff@.bnd(24),
        xoff@.k <= 32,
        yoff@.k <= 32,
    ensures
        r@ == s_scaled(v@, xoff@, yoff@, scale@),
{
    proof {
        lemma_bnd_flat(v.x@, 13, 37);
        lemma_bnd_flat(v.y@, 13, 37);
        lemma_bnd_flat(scale@, 6, 18);
        lemma_bnd_times(v.x@, scale@, 13, 6);
        lemma_bnd_times(v.y@, scale@, 13, 6);
        lemma_bnd_mono(v.x@.times(scale@), 23, 28);
        lemma_bnd_mono(v.y@.times(scale@), 23, 28);
        lemma_bnd_mono(xoff@, 24, 28);
        lemma_bnd_mono(yoff@, 24, 28);
    }
    let sx = v.x.mul(scale);
    let sy = v.y.mul(scale);
    Point { x: sx.add(xoff), y: sy.add(yoff) }
}

/// Midpoint of two exact points.
pub fn midpoint(p: &Point, q: &Point) -> (r: Point)
    requires
        p.x@.bnd(27),
        p.y@.bnd(27),
        q.x@.bnd(27),
        q.y@.bnd(27),
        p.x@.k <= 31,
        p.y@.k <= 31,
        q.x@.k <= 31,
        q.y@.k <= 31,
    ensures
        r@ == p@.plus(q@).halved(),
{
    proof {
        lemma_bnd_mono(p.x@, 27, 28);
        lemma_bnd_mono(p.y@, 27, 28);
        lemma_bnd_mono(q.x@, 27, 28);
        lemma_bnd_mono(q.y@, 27, 28);
        lemma_bnd_plus(p.x@, q.x@, 27);
        lemma_bnd_plus(p.y@, q.y@, 27);
    }
    let sx = p.x.add(&q.x);
    let sy = p.y.add(&q.y);
    Point { x: sx.half(), y: sy.half() }
}

} // verus!

//! The Kite tile: local vertex template, edge tables, queries and the
//! edge-matching placement rule.
//!
//! A kite is a quadrilateral with internal angles 72, 144, 72 and 72
//! degrees.  Its local-frame vertices are (-phi,0), (1/2,-h), (1,0) and
//! (1/2,h), where phi is the golden ratio and h = sqrt(5 + 2*sqrt(5))/2.

use crate::coord::{lemma_bnd_mono, lemma_bnd_plus, Coord, Quartic};
use crate::degrees::{lemma_norm360_mod36, lemma_norm360_range, norm360, norm_deg};
use crate::tile::{
    edge_index_to_vertex_tuple, edge_pair, lemma_rot36_bnd, midpoint, placed_at, qc, rot36,
    s_placed, s_scaled, s_world, scale_shift, vc, world_point, EdgeLength, PenroseError, Point,
    TilePose, Vec2,
};
use vstd::arithmetic::div_mod::lemma_add_mod_noop;
use vstd::arithmetic::power2::lemma2_to64;
use vstd::prelude::*;

verus! {

/// Local-frame vertex `i` of a kite.
pub open spec fn kite_point(i: int) -> Vec2 {
    if i == 0 {
        vc(qc(-1, -1, 0, 0, 1), qc(0, 0, 0, 0, 0))
    } else if i == 1 {
        vc(qc(1, 0, 0, 0, 1), qc(0, 0, -3, -1, 1))
    } else if i == 2 {
        vc(qc(1, 0, 0, 0, 0), qc(0, 0, 0, 0, 0))
    } else {
        vc(qc(1, 0, 0, 0, 1), qc(0, 0, 3, 1, 1))
    }
}

/// Direction offset of kite edge `e` relative to the tile's orientation.
pub open spec fn kite_offset(e: int) -> int {
    if e == 1 {
        324
    } else if e == 2 {
        72
    } else if e == 3 {
        108
    } else {
        216
    }
}

/// Rotation added to an anchor direction when gluing kite edge `e` to it.
pub open spec fn kite_turn(e: int) -> int {
    if e == 1 {
        216
    } else if e == 2 {
        108
    } else if e == 3 {
        72
    } else {
        324
    }
}

/// Local offset from the anchor point to the new kite's center when gluing
/// edge `e`, before rotation into the new orientation.
pub open spec fn kite_delta(e: int) -> Vec2 {
    if e == 1 {
        vc(qc(0, 1, 0, 0, 2), qc(0, 0, 3, 1, 2))
    } else if e == 2 {
        vc(qc(-3, 0, 0, 0, 2), qc(0, 0, 3, 1, 2))
    } else if e == 3 {
        vc(qc(-3, 0, 0, 0, 2), qc(0, 0, -3, -1, 2))
    } else {
        vc(qc(0, 1, 0, 0, 2), qc(0, 0, -3, -1, 2))
    }
}

/// Length class of kite edge `e`.
pub open spec fn kite_len(e: int) -> EdgeLength {
    if e == 2 || e == 3 {
        EdgeLength::SHORT
    } else {
        EdgeLength::LONG
    }
}

/// World position of kite vertex `i` for a tile at pose `t`.
pub open spec fn s_kite_vertex(t: TilePose, i: int) -> Vec2 {
    s_world(t.x, t.y, kite_point(i), t.angle / 36)
}

/// Direction angle of kite edge `e` for a tile at pose `t`.
pub open spec fn s_kite_edge_angle(t: TilePose, e: int) -> int {
    norm360(kite_offset(e) + t.angle)
}

/// Midpoint of kite edge `e` for a tile at pose `t`.
pub open spec fn s_kite_edge_center(t: TilePose, e: int) -> Vec2 {
    s_kite_vertex(t, edge_pair(e).0).plus(s_kite_vertex(t, edge_pair(e).1)).halved()
}

/// Pose of a kite glued by its edge `e` against an anchor edge at point
/// `p` with direction `ang`.
pub open spec fn s_place_kite(e: int, p: Vec2, ang: int) -> TilePose {
    s_placed(kite_delta(e), kite_turn(e), p, ang)
}

/// A kite vertex mapped into presentation coordinates.
pub open spec fn s_kite_polygon(t: TilePose, xo: Quartic, yo: Quartic, sc: Quartic, i: int) -> Vec2 {
    s_scaled(s_kite_vertex(t, i), xo, yo, sc)
}

/// Every entry of the kite's template and placement tables is a small
/// fixed point.
pub proof fn lemma_kite_tables_small(i: int, e: int)
    ensures
        kite_point(i).x.bnd(1),
        kite_point(i).y.bnd(1),
        kite_point(i).x.k <= 2,
        kite_point(i).y.k <= 2,
        kite_delta(e).x.bnd(1),
        kite_delta(e).y.bnd(1),
        kite_delta(e).x.k <= 2,
        kite_delta(e).y.k <= 2,
{
    lemma2_to64();
}

/// For a kite on the 36-degree grid, every edge direction is on the grid
/// too.
pub proof fn lemma_kite_edge_angle_mod36(t: TilePose, e: int)
    requires
        t.angle % 36 == 0,
    ensures
        s_kite_edge_angle(t, e) % 36 == 0,
        0 <= s_kite_edge_angle(t, e) < 360,
{
    lemma_add_mod_noop(kite_offset(e), t.angle, 36);
    lemma_norm360_mod36(kite_offset(e) + t.angle);
    lemma_norm360_range(kite_offset(e) + t.angle);
}

/// A kite tile: an exact center and an orientation in integer degrees,
/// normalized to [0, 360) by construction.
#[derive(Clone, Copy, PartialEq, Eq, Structural, Debug)]
pub struct Kite {
    pub cx: Coord,
    pub cy: Coord,
    pub angle: i32,
}

impl View for Kite {
    type V = TilePose;

    open spec fn view(&self) -> TilePose {
        TilePose { x: self.cx@, y: self.cy@, angle: self.angle as int }
    }
}

/// Local-frame vertex template of the kite, as an executable point.
fn kite_template(i: i32) -> (r: Point)
    requires
        0 <= i < 4,
    ensures
        r@ == kite_point(i as int),
        r.x@.bnd(1),
        r.y@.bnd(1),
        r.x@.k <= 2,
        r.y@.k <= 2,
{
    proof {
        lemma2_to64();
    }
    match i {
        0 => Point {
            x: Coord { a: -1, b: -1, c: 0, d: 0, k: 1 },
            y: Coord { a: 0, b: 0, c: 0, d: 0, k: 0 },
        },
        1 => Point {
            x: Coord { a: 1, b: 0, c: 0, d: 0, k: 1 },
            y: Coord { a: 0, b: 0, c: -3, d: -1, k: 1 },
        },
        2 => Point {
            x: Coord { a: 1, b: 0, c: 0, d: 0, k: 0 },
            y: Coord { a: 0, b: 0, c: 0, d: 0, k: 0 },
        },
        _ => Point {
            x: Coord { a: 1, b: 0, c: 0, d: 0, k: 1 },
            y: Coord { a: 0, b: 0, c: 3, d: 1, k: 1 },
        },
    }
}

/// Placement offset table of the kite, as an executable point.
fn kite_delta_point(e: i32) -> (r: Point)
    requires
        1 <= e <= 4,
    ensures
        r@ == kite_delta(e as int),
        r.x@.bnd(1),
        r.y@.bnd(1),
        r.x@.k <= 2,
        r.y@.k <= 2,
{
    proof {
        lemma2_to64();
    }
    match e {
        1 => Point {
            x: Coord { a: 0, b: 1, c: 0, d: 0, k: 2 },
            y: Coord { a: 0, b: 0, c: 3, d: 1, k: 2 },
        },
        2 => Point {
            x: Coord { a: -3, b: 0, c: 0, d: 0, k: 2 },
            y: Coord { a: 0, b: 0, c: 3, d: 1, k: 2 },
        },
        3 => Point {
            x: Coord { a: -3, b: 0, c: 0, d: 0, k: 2 },
            y: Coord { a: 0, b: 0, c: -3, d: -1, k: 2 },
        },
        _ => Point {
            x: Coord { a: 0, b: 1, c: 0, d: 0, k: 2 },
            y: Coord { a: 0, b: 0, c: -3, d: -1, k: 2 },
        },
    }
}

impl Kite {
    /// A kite centered at (x, y) with its orientation reduced to [0, 360).
    pub fn new(x: Coord, y: Coord, a: i32) -> (r: Kite)
        ensures
            r.cx == x,
            r.cy == y,
            r.angle == norm360(a as int),
            0 <= r.angle < 360,
    {
        Kite { cx: x, cy: y, angle: norm_deg(a as i64) }
    }

    /// The same kite turned by `angle` degrees; the center does not move.
    pub fn rotate(&self, angle: i32) -> (r: Kite)
        ensures
            r.cx == self.cx,
            r.cy == self.cy,
            r.angle == norm360(self.angle + angle as int),
            0 <= r.angle < 360,
    {
        Kite { cx: self.cx, cy: self.cy, angle: norm_deg(self.angle as i64 + angle as i64) }
    }

    /// The same kite shifted by (ox, oy); the orientation does not change.
    pub fn translate(&self, ox: &Coord, oy: &Coord) -> (r: Kite)
        requires
            self.cx@.bnd(26),
            self.cy@.bnd(26),
            self.cx@.k <= 30,
            self.cy@.k <= 30,
            ox@.bnd(26),
            oy@.bnd(26),
            ox@.k <= 30,
            oy@.k <= 30,
        ensures
            r.cx@ == self.cx@.plus(ox@),
            r.cy@ == self.cy@.plus(oy@),
            r.angle == self.angle,
    {
        proof {
            lemma_bnd_mono(self.cx@, 26, 28);
            lemma_bnd_mono(self.cy@, 26, 28);
            lemma_bnd_mono(ox@, 26, 28);
            lemma_bnd_mono(oy@, 26, 28);
        }
        Kite { cx: self.cx.add(ox), cy: self.cy.add(oy), angle: self.angle }
    }

    /// The four vertices in world coordinates: the local template rotated
    /// by the tile's orientation and shifted to its center.
    pub fn vertices(&self) -> (r: Vec<Point>)
        requires
            0 <= self.angle < 360,
            self.angle % 36 == 0,
            self.cx@.bnd(26),
            self.cy@.bnd(26),
            self.cx@.k <= 30,
            self.cy@.k <= 30,
        ensures
            r@.len() == 4,
            forall|i: int| 0 <= i < 4 ==> (#[trigger] r@[i])@ == s_kite_vertex(self@, i),
    {
        let t: i32 = self.angle / 36;
        let v0 = world_point(&self.cx, &self.cy, &kite_template(0), t);
        let v1 = world_point(&self.cx, &self.cy, &kite_template(1), t);
        let v2 = world_point(&self.cx, &self.cy, &kite_template(2), t);
        let v3 = world_point(&self.cx, &self.cy, &kite_template(3), t);
        let r = vec![v0, v1, v2, v3];
        proof {
            assert(r@[0] == v0 && r@[1] == v1 && r@[2] == v2 && r@[3] == v3);
        }
        r
    }

    /// The four vertices mapped into presentation coordinates:
    /// p * scale + (xoff, yoff).  This is the only place scale and offset
    /// enter; the tile's own geometry is untouched.
    #[verifier::rlimit(60)]
    pub fn polygon(&self, xoff: &Coord, yoff: &Coord, scale: &Coord) -> (r: Vec<Point>)
        requires
            0 <= self.angle < 360,
            self.angle % 36 == 0,
            self.cx@.bnd(12),
            self.cy@.bnd(12),
            self.cx@.k <= 8,
            self.cy@.k <= 8,
            scale@.bnd(6),
            scale@.k <= 8,
            xoff@.bnd(24),
            yoff@.bnd(24),
            xoff@.k <= 32,
            yoff@.k <= 32,
        ensures
            r@.len() == 4,
            forall|i: int|
                0 <= i < 4 ==> (#[trigger] r@[i])@ == s_kite_polygon(
                    self@,
                    xoff@,
                    yoff@,
                    scale@,
                    i,
                ),
    {
        proof {
            lemma_bnd_mono(self.cx@, 12, 26);
            lemma_bnd_mono(self.cy@, 12, 26);
        }
        let v = self.vertices();
        proof {
            let t = self.angle as int / 36;
            lemma2_to64();
            lemma_rot36_bnd(kite_point(0), t, 1, 2);
            lemma_rot36_bnd(kite_point(1), t, 1, 2);
            lemma_rot36_bnd(kite_point(2), t, 1, 2);
            lemma_rot36_bnd(kite_point(3), t, 1, 2);
            lemma_bnd_mono(rot36(kite_point(0), t).x, 6, 12);
            lemma_bnd_mono(rot36(kite_point(0), t).y, 6, 12);
            lemma_bnd_mono(rot36(kite_point(1), t).x, 6, 12);
            lemma_bnd_mono(rot36(kite_point(1), t).y, 6, 12);
            lemma_bnd_mono(rot36(kite_point(2), t).x, 6, 12);
            lemma_bnd_mono(rot36(kite_point(2), t).y, 6, 12);
            lemma_bnd_mono(rot36(kite_point(3), t).x, 6, 12);
            lemma_bnd_mono(rot36(kite_point(3), t).y, 6, 12);
            lemma_bnd_plus(self.cx@, rot36(kite_point(0), t).x, 12);
            lemma_bnd_plus(self.cy@, rot36(kite_point(0), t).y, 12);
            lemma_bnd_plus(self.cx@, rot36(kite_point(1), t).x, 12);
            lemma_bnd_plus(self.cy@, rot36(kite_point(1), t).y, 12);
            lemma_bnd_plus(self.cx@, rot36(kite_point(2), t).x, 12);
            lemma_bnd_plus(self.cy@, rot36(kite_point(2), t).y, 12);
            lemma_bnd_plus(self.cx@, rot36(kite_point(3), t).x, 12);
            lemma_bnd_plus(self.cy@, rot36(kite_point(3), t).y, 12);
        }
        let p0 = scale_shift(&v[0], xoff, yoff, scale);
        let p1 = scale_shift(&v[1], xoff, yoff, scale);
        let p2 = scale_shift(&v[2], xoff, yoff, scale);
        let p3 = scale_shift(&v[3], xoff, yoff, scale);
        let r = vec![p0, p1, p2, p3];
        proof {
            assert(r@[0] == p0 && r@[1] == p1 && r@[2] == p2 && r@[3] == p3);
        }
        r
    }

    /// Direction angle of edge `e`, by exact integer table lookup.
    pub fn edge_angle(&self, e: i32) -> (r: Result<i32, PenroseError>)
        requires
            0 <= self.angle < 360,
        ensures
            match r {
                Ok(a) => 1 <= e <= 4 && a == s_kite_edge_angle(self@, e as int) && 0 <= a < 360,
                Err(err) => !(1 <= e <= 4) && err == PenroseError::InvalidEdgeIndex(e),
            },
    {
        match e {
            1 => Ok(norm_deg(324 + self.angle as i64)),
            2 => Ok(norm_deg(72 + self.angle as i64)),
            3 => Ok(norm_deg(108 + self.angle as i64)),
            4 => Ok(norm_deg(216 + self.angle as i64)),
            _ => Err(PenroseError::InvalidEdgeIndex(e)),
        }
    }

    /// Length class of edge `e`: edges 1 and 4 are long, 2 and 3 short.
    pub fn edge_length(&self, e: i32) -> (r: Result<EdgeLength, PenroseError>)
        ensures
            match r {
                Ok(l) => 1 <= e <= 4 && l == kite_len(e as int),
                Err(err) => !(1 <= e <= 4) && err == PenroseError::InvalidEdgeIndex(e),
            },
    {
        match e {
            1 => Ok(EdgeLength::LONG),
            2 => Ok(EdgeLength::SHORT),
            3 => Ok(EdgeLength::SHORT),
            4 => Ok(EdgeLength::LONG),
            _ => Err(PenroseError::InvalidEdgeIndex(e)),
        }
    }

    /// The two endpoints of edge `e`, in the tile's vertex order.
    pub fn edge_points(&self, e: i32) -> (r: Result<(Point, Point), PenroseError>)
        requires
            0 <= self.angle < 360,
            self.angle % 36 == 0,
            self.cx@.bnd(26),
            self.cy@.bnd(26),
            self.cx@.k <= 30,
            self.cy@.k <= 30,
        ensures
            match r {
                Ok(pp) => {
                    &&& 1 <= e <= 4
                    &&& pp.0@ == s_kite_vertex(self@, edge_pair(e as int).0)
                    &&& pp.1@ == s_kite_vertex(self@, edge_pair(e as int).1)
                },
                Err(err) => !(1 <= e <= 4) && err == PenroseError::InvalidEdgeIndex(e),
            },
    {
        match edge_index_to_vertex_tuple(e) {
            Err(err) => Err(err),
            Ok((i1, i2)) => {
                let v = self.vertices();
                Ok((v[i1], v[i2]))
            },
        }
    }

    /// The midpoint of edge `e`: the arithmetic mean of its two endpoints.
    #[verifier::rlimit(60)]
    pub fn edge_center(&self, e: i32) -> (r: Result<Point, PenroseError>)
        requires
            0 <= self.angle < 360,
            self.angle % 36 == 0,
            self.cx@.bnd(26),
            self.cy@.bnd(26),
            self.cx@.k <= 30,
            self.cy@.k <= 30,
        ensures
            match r {
                Ok(p) => 1 <= e <= 4 && p@ == s_kite_edge_center(self@, e as int),
                Err(err) => !(1 <= e <= 4) && err == PenroseError::InvalidEdgeIndex(e),
            },
    {
        match self.edge_points(e) {
            Err(err) => Err(err),
            Ok((p1, p2)) => {
                proof {
                    let t = self.angle as int / 36;
                    let i1 = edge_pair(e as int).0;
                    let i2 = edge_pair(e as int).1;
                    lemma2_to64();
                    lemma_rot36_bnd(kite_point(i1), t, 1, 2);
                    lemma_rot36_bnd(kite_point(i2), t, 1, 2);
                    lemma_bnd_mono(rot36(kite_point(i1), t).x, 6, 26);
                    lemma_bnd_mono(rot36(kite_point(i1), t).y, 6, 26);
                    lemma_bnd_mono(rot36(kite_point(i2), t).x, 6, 26);
                    lemma_bnd_mono(rot36(kite_point(i2), t).y, 6, 26);
                    lemma_bnd_plus(self.cx@, rot36(kite_point(i1), t).x, 26);
                    lemma_bnd_plus(self.cy@, rot36(kite_point(i1), t).y, 26);
                    lemma_bnd_plus(self.cx@, rot36(kite_point(i2), t).x, 26);
                    lemma_bnd_plus(self.cy@, rot36(kite_point(i2), t).y, 26);
                }
                Ok(midpoint(&p1, &p2))
            },
        }
    }
}

/// Glue a new kite by its edge `e` to an anchor edge: the anchor's
/// midpoint `pt` and direction `edge_angle` determine the kite's pose in
/// closed form, by table lookup and one exact rotation.
pub fn place_kite_edge(e: i32, pt: Point, edge_angle: i32) -> (r: Result<Kite, PenroseError>)
    requires
        0 <= edge_angle < 360,
        edge_angle % 36 == 0,
        pt.x@.bnd(26),
        pt.y@.bnd(26),
        pt.x@.k <= 30,
        pt.y@.k <= 30,
    ensures
        match r {
            Ok(d) => {
                &&& 1 <= e <= 4
                &&& d@ == s_place_kite(e as int, pt@, edge_angle as int)
                &&& 0 <= d.angle < 360
                &&& d.angle % 36 == 0
            },
            Err(err) => !(1 <= e <= 4) && err == PenroseError::InvalidEdgeIndex(e),
        },
{
    if e < 1 || e > 4 {
        return Err(PenroseError::InvalidEdgeIndex(e));
    }
    let turn: i32 = match e {
        1 => 216,
        2 => 108,
        3 => 72,
        _ => 324,
    };
    let (c, na) = placed_at(&kite_delta_point(e), turn, &pt, edge_angle);
    Ok(Kite { cx: c.x, cy: c.y, angle: na })
}

} // verus!

//! The vertex configuration catalog: the seven legal ways P2 tiles can
//! surround a single point, each built by a fixed chain of edge-matching
//! placements from one seed tile.
//!
//! Each builder reads one edge (midpoint and direction) off the most
//! recently placed tile and glues the next tile to it; the finished list
//! is handed back in placement order.  The recipes only ever request edges
//! 1..4, so a builder never fails on the inputs its contract admits.

use crate::coord::{lemma_bnd_minus, lemma_bnd_mono, lemma_bnd_plus, Coord, Quartic};
use crate::dart::{
    dart_delta, dart_point, dart_turn, lemma_dart_edge_angle_mod36, lemma_dart_tables_small,
    place_dart_edge, s_dart_edge_angle, s_dart_edge_center, s_place_dart, Dart,
};
use crate::degrees::{lemma_norm360_mod36, norm360};
use crate::kite::{
    kite_delta, kite_point, kite_turn, lemma_kite_edge_angle_mod36, lemma_kite_tables_small,
    place_kite_edge, s_kite_edge_angle, s_kite_edge_center, s_place_kite, Kite,
};
use crate::tile::{
    edge_pair, lemma_glued_mid_bnd, lemma_placed_bnd, lemma_tile_bnd_mono, qc, tile_bnd,
    PenroseError, TilePose,
};
use vstd::arithmetic::power2::lemma2_to64;
use vstd::pervasive::unreached;
use vstd::prelude::*;

verus! {

/// A tile of either shape: the closed union the configuration builders
/// hand back.
#[derive(Clone, Copy, PartialEq, Eq, Structural, Debug)]
pub enum Tile {
    Dart(Dart),
    Kite(Kite),
}

/// The tile is a dart at exactly this pose.
pub open spec fn is_dart(t: Tile, p: TilePose) -> bool {
    t matches Tile::Dart(d) && d@ == p
}

/// The tile is a kite at exactly this pose.
pub open spec fn is_kite(t: Tile, p: TilePose) -> bool {
    t matches Tile::Kite(k) && k@ == p
}

/// Read edge `e_read` off `prev` and glue a new dart by its edge
/// `e_new` to it.  One step of a configuration recipe; it cannot fail.
fn next_dart_from_dart(prev: &Dart, e_new: i32, e_read: i32) -> (r: Dart)
    requires
        1 <= e_new <= 4,
        1 <= e_read <= 4,
        0 <= prev.angle < 360,
        prev.angle % 36 == 0,
        tile_bnd(prev@, 24),
    ensures
        r@ == s_place_dart(
            e_new as int,
            s_dart_edge_center(prev@, e_read as int),
            s_dart_edge_angle(prev@, e_read as int),
        ),
        0 <= r.angle < 360,
        r.angle % 36 == 0,
        forall|g: nat|
            7 <= g <= 24 && #[trigger] tile_bnd(prev@, g) ==> tile_bnd(r@, (g + 2) as nat),
{
    proof {
        let i1 = edge_pair(e_read as int).0;
        let i2 = edge_pair(e_read as int).1;
        lemma_dart_tables_small(i1, 1);
        lemma_dart_tables_small(i2, 1);
        lemma_glued_mid_bnd(prev@.x, prev@.y, dart_point(i1), dart_point(i2), prev@.angle / 36, 24, 24);
        lemma_dart_edge_angle_mod36(prev@, e_read as int);
        lemma_bnd_mono(prev@.x, 24, 26);
        lemma_bnd_mono(prev@.y, 24, 26);
    }
    let c = match prev.edge_center(e_read) {
        Ok(p) => p,
        Err(_) => unreached(),
    };
    let aa = match prev.edge_angle(e_read) {
        Ok(a) => a,
        Err(_) => unreached(),
    };
    proof {
        lemma_bnd_mono(c.x@, 25, 26);
        lemma_bnd_mono(c.y@, 25, 26);
    }
    let t = match place_dart_edge(e_new, c, aa) {
        Ok(t) => t,
        Err(_) => unreached(),
    };
    proof {
        let i1 = edge_pair(e_read as int).0;
        let i2 = edge_pair(e_read as int).1;
        lemma_dart_tables_small(0, e_new as int);
        assert forall|g: nat| 7 <= g <= 24 && #[trigger] tile_bnd(prev@, g) implies tile_bnd(
            t@,
            (g + 2) as nat,
        ) by {
            lemma_dart_tables_small(i1, 1);
            lemma_dart_tables_small(i2, 1);
            lemma_glued_mid_bnd(prev@.x, prev@.y, dart_point(i1), dart_point(i2), prev@.angle / 36, g, g);
            lemma_placed_bnd(
                dart_delta(e_new as int),
                dart_turn(e_new as int),
                s_dart_edge_center(prev@, e_read as int),
                aa as int,
                (g + 1) as nat,
                (g + 1) as nat,
            );
        };
    }
    t
}

/// Read edge `e_read` off `prev` and glue a new kite by its edge
/// `e_new` to it.  One step of a configuration recipe; it cannot fail.
fn next_kite_from_dart(prev: &Dart, e_new: i32, e_read: i32) -> (r: Kite)
    requires
        1 <= e_new <= 4,
        1 <= e_read <= 4,
        0 <= prev.angle < 360,
        prev.angle % 36 == 0,
        tile_bnd(prev@, 24),
    ensures
        r@ == s_place_kite(
            e_new as int,
            s_dart_edge_center(prev@, e_read as int),
            s_dart_edge_angle(prev@, e_read as int),
        ),
        0 <= r.angle < 360,
        r.angle % 36 == 0,
        forall|g: nat|
            7 <= g <= 24 && #[trigger] tile_bnd(prev@, g) ==> tile_bnd(r@, (g + 2) as nat),
{
    proof {
        let i1 = edge_pair(e_read as int).0;
        let i2 = edge_pair(e_read as int).1;
        lemma_dart_tables_small(i1, 1);
        lemma_dart_tables_small(i2, 1);
        lemma_glued_mid_bnd(prev@.x, prev@.y, dart_point(i1), dart_point(i2), prev@.angle / 36, 24, 24);
        lemma_dart_edge_angle_mod36(prev@, e_read as int);
        lemma_bnd_mono(prev@.x, 24, 26);
        lemma_bnd_mono(prev@.y, 24, 26);
    }
    let c = match prev.edge_center(e_read) {
        Ok(p) => p,
        Err(_) => unreached(),
    };
    let aa = match prev.edge_angle(e_read) {
        Ok(a) => a,
        Err(_) => unreached(),
    };
    proof {
        lemma_bnd_mono(c.x@, 25, 26);
        lemma_bnd_mono(c.y@, 25, 26);
    }
    let t = match place_kite_edge(e_new, c, aa) {
        Ok(t) => t,
        Err(_) => unreached(),
    };
    proof {
        let i1 = edge_pair(e_read as int).0;
        let i2 = edge_pair(e_read as int).1;
        lemma_kite_tables_small(0, e_new as int);
        assert forall|g: nat| 7 <= g <= 24 && #[trigger] tile_bnd(prev@, g) implies tile_bnd(
            t@,
            (g + 2) as nat,
        ) by {
            lemma_dart_tables_small(i1, 1);
            lemma_dart_tables_small(i2, 1);
            lemma_glued_mid_bnd(prev@.x, prev@.y, dart_point(i1), dart_point(i2), prev@.angle / 36, g, g);
            lemma_placed_bnd(
                kite_delta(e_new as int),
                kite_turn(e_new as int),
                s_dart_edge_center(prev@, e_read as int),
                aa as int,
                (g + 1) as nat,
                (g + 1) as nat,
            );
        };
    }
    t
}

/// Read edge `e_read` off `prev` and glue a new kite by its edge
/// `e_new` to it.  One step of a configuration recipe; it cannot fail.
fn next_kite_from_kite(prev: &Kite, e_new: i32, e_read: i32) -> (r: Kite)
    requires
        1 <= e_new <= 4,
        1 <= e_read <= 4,
        0 <= prev.angle < 360,
        prev.angle % 36 == 0,
        tile_bnd(prev@, 24),
    ensures
        r@ == s_place_kite(
            e_new as int,
            s_kite_edge_center(prev@, e_read as int),
            s_kite_edge_angle(prev@, e_read as int),
        ),
        0 <= r.angle < 360,
        r.angle % 36 == 0,
        forall|g: nat|
            7 <= g <= 24 && #[trigger] tile_bnd(prev@, g) ==> tile_bnd(r@, (g + 2) as nat),
{
    proof {
        let i1 = edge_pair(e_read as int).0;
        let i2 = edge_pair(e_read as int).1;
        lemma_kite_tables_small(i1, 1);
        lemma_kite_tables_small(i2, 1);
        lemma_glued_mid_bnd(prev@.x, prev@.y, kite_point(i1), kite_point(i2), prev@.angle / 36, 24, 24);
        lemma_kite_edge_angle_mod36(prev@, e_read as int);
        lemma_bnd_mono(prev@.x, 24, 26);
        lemma_bnd_mono(prev@.y, 24, 26);
    }
    let c = match prev.edge_center(e_read) {
        Ok(p) => p,
        Err(_) => unreached(),
    };
    let aa = match prev.edge_angle(e_read) {
        Ok(a) => a,
        Err(_) => unreached(),
    };
    proof {
        lemma_bnd_mono(c.x@, 25, 26);
        lemma_bnd_mono(c.y@, 25, 26);
    }
    let t = match place_kite_edge(e_new, c, aa) {
        Ok(t) => t,
        Err(_) => unreached(),
    };
    proof {
        let i1 = edge_pair(e_read as int).0;
        let i2 = edge_pair(e_read as int).1;
        lemma_kite_tables_small(0, e_new as int);
        assert forall|g: nat| 7 <= g <= 24 && #[trigger] tile_bnd(prev@, g) implies tile_bnd(
            t@,
            (g + 2) as nat,
        ) by {
            lemma_kite_tables_small(i1, 1);
            lemma_kite_tables_small(i2, 1);
            lemma_glued_mid_bnd(prev@.x, prev@.y, kite_point(i1), kite_point(i2), prev@.angle / 36, g, g);
            lemma_placed_bnd(
                kite_delta(e_new as int),
                kite_turn(e_new as int),
                s_kite_edge_center(prev@, e_read as int),
                aa as int,
                (g + 1) as nat,
                (g + 1) as nat,
            );
        };
    }
    t
}

/// Read edge `e_read` off `prev` and glue a new dart by its edge
/// `e_new` to it.  One step of a configuration recipe; it cannot fail.
fn next_dart_from_kite(prev: &Kite, e_new: i32, e_read: i32) -> (r: Dart)
    requires
        1 <= e_new <= 4,
        1 <= e_read <= 4,
        0 <= prev.angle < 360,
        prev.angle % 36 == 0,
        tile_bnd(prev@, 24),
    ensures
        r@ == s_place_dart(
            e_new as int,
            s_kite_edge_center(prev@, e_read as int),
            s_kite_edge_angle(prev@, e_read as int),
        ),
        0 <= r.angle < 360,
        r.angle % 36 == 0,
        forall|g: nat|
            7 <= g <= 24 && #[trigger] tile_bnd(prev@, g) ==> tile_bnd(r@, (g + 2) as nat),
{
    proof {
        let i1 = edge_pair(e_read as int).0;
        let i2 = edge_pair(e_read as int).1;
        lemma_kite_tables_small(i1, 1);
        lemma_kite_tables_small(i2, 1);
        lemma_glued_mid_bnd(prev@.x, prev@.y, kite_point(i1), kite_point(i2), prev@.angle / 36, 24, 24);
        lemma_kite_edge_angle_mod36(prev@, e_read as int);
        lemma_bnd_mono(prev@.x, 24, 26);
        lemma_bnd_mono(prev@.y, 24, 26);
    }
    let c = match prev.edge_center(e_read) {
        Ok(p) => p,
        Err(_) => unreached(),
    };
    let aa = match prev.edge_angle(e_read) {
        Ok(a) => a,
        Err(_) => unreached(),
    };
    proof {
        lemma_bnd_mono(c.x@, 25, 26);
        lemma_bnd_mono(c.y@, 25, 26);
    }
    let t = match place_dart_edge(e_new, c, aa) {
        Ok(t) => t,
        Err(_) => unreached(),
    };
    proof {
        let i1 = edge_pair(e_read as int).0;
        let i2 = edge_pair(e_read as int).1;
        lemma_dart_tables_small(0, e_new as int);
        assert forall|g: nat| 7 <= g <= 24 && #[trigger] tile_bnd(prev@, g) implies tile_bnd(
            t@,
            (g + 2) as nat,
        ) by {
            lemma_kite_tables_small(i1, 1);
            lemma_kite_tables_small(i2, 1);
            lemma_glued_mid_bnd(prev@.x, prev@.y, kite_point(i1), kite_point(i2), prev@.angle / 36, g, g);
            lemma_placed_bnd(
                dart_delta(e_new as int),
                dart_turn(e_new as int),
                s_kite_edge_center(prev@, e_read as int),
                aa as int,
                (g + 1) as nat,
                (g + 1) as nat,
            );
        };
    }
    t
}

/// The pose chain of vertex configuration 1.
pub open spec fn s_vertex1(x: Quartic, y: Quartic, a: int) -> (TilePose, TilePose, TilePose, TilePose, TilePose) {
    let t1 = TilePose { x: x.minus(qc(1, 1, 0, 0, 1)), y: y, angle: norm360(a) };
    let t2 = s_place_dart(3, s_dart_edge_center(t1, 2), s_dart_edge_angle(t1, 2));
    let t3 = s_place_dart(3, s_dart_edge_center(t2, 2), s_dart_edge_angle(t2, 2));
    let t4 = s_place_dart(3, s_dart_edge_center(t3, 2), s_dart_edge_angle(t3, 2));
    let t5 = s_place_dart(3, s_dart_edge_center(t4, 2), s_dart_edge_angle(t4, 2));
    (t1, t2, t3, t4, t5)
}

/// Vertex configuration 1: five darts around a point, built by chained
/// edge-matching placements from one seed tile at (x, y) with
/// orientation `angle`.  The recipe only requests edges 1..4, so it
/// always succeeds on the inputs the contract admits.
#[verifier::rlimit(60)]
pub fn build_vertex1(x: Coord, y: Coord, angle: i32) -> (r: Result<Vec<Tile>, PenroseError>)
    requires
        angle % 36 == 0,
        x@.bnd(10),
        y@.bnd(10),
        x@.k <= 10,
        y@.k <= 10,
    ensures
        match r {
            Ok(v) => {
                let s = s_vertex1(x@, y@, angle as int);
                v@.len() == 5 && is_dart(v@[0], s.0) && is_dart(v@[1], s.1) && is_dart(v@[2], s.2) && is_dart(v@[3], s.3) && is_dart(v@[4], s.4)
            },
            Err(_) => false,
        },
{
    let c_phi = Coord::phi();
    proof {
        lemma2_to64();
        lemma_norm360_mod36(angle as int);
        lemma_bnd_mono(x@, 10, 28);
        lemma_bnd_mono(c_phi@, 0, 10);
        lemma_bnd_minus(x@, c_phi@, 10);
        lemma_bnd_mono(c_phi@, 0, 28);
        lemma_bnd_mono(y@, 10, 11);
    }
    let t1 = Dart::new(x.sub(&c_phi), y, angle);
    proof {
        assert(tile_bnd(t1@, 11));
        lemma_tile_bnd_mono(t1@, 11, 24);
    }
    let t2 = next_dart_from_dart(&t1, 3, 2);
    proof {
        assert(tile_bnd(t2@, 13));
        lemma_tile_bnd_mono(t2@, 13, 24);
    }
    let t3 = next_dart_from_dart(&t2, 3, 2);
    proof {
        assert(tile_bnd(t3@, 15));
        lemma_tile_bnd_mono(t3@, 15, 24);
    }
    let t4 = next_dart_from_dart(&t3, 3, 2);
    proof {
        assert(tile_bnd(t4@, 17));
        lemma_tile_bnd_mono(t4@, 17, 24);
    }
    let t5 = next_dart_from_dart(&t4, 3, 2);
    proof {
        assert(tile_bnd(t5@, 19));
    }
    proof {
        let s = s_vertex1(x@, y@, angle as int);
        assert(t1@ == s.0);
        assert(t2@ == s.1);
        assert(t3@ == s.2);
        assert(t4@ == s.3);
        assert(t5@ == s.4);
    }
    let tiles: Vec<Tile> = vec![Tile::Dart(t1), Tile::Dart(t2), Tile::Dart(t3), Tile::Dart(t4), Tile::Dart(t5)];
    proof {
        assert(tiles@[0] == Tile::Dart(t1) && tiles@[1] == Tile::Dart(t2) && tiles@[2] == Tile::Dart(t3) && tiles@[3] == Tile::Dart(t4) && tiles@[4] == Tile::Dart(t5));
    }
    Ok(tiles)
}

/// The pose chain of vertex configuration 2.
pub open spec fn s_vertex2(x: Quartic, y: Quartic, a: int) -> (TilePose, TilePose, TilePose) {
    let t1 = TilePose { x: x, y: y, angle: norm360(a) };
    let t2 = s_place_kite(2, s_dart_edge_center(t1, 4), s_dart_edge_angle(t1, 4));
    let t3 = s_place_kite(4, s_kite_edge_center(t2, 1), s_kite_edge_angle(t2, 1));
    (t1, t2, t3)
}

/// Vertex configuration 2: a dart flanked by two kites, built by chained
/// edge-matching placements from one seed tile at (x, y) with
/// orientation `angle`.  The recipe only requests edges 1..4, so it
/// always succeeds on the inputs the contract admits.
#[verifier::rlimit(60)]
pub fn build_vertex2(x: Coord, y: Coord, angle: i32) -> (r: Result<Vec<Tile>, PenroseError>)
    requires
        angle % 36 == 0,
        x@.bnd(10),
        y@.bnd(10),
        x@.k <= 10,
        y@.k <= 10,
    ensures
        match r {
            Ok(v) => {
                let s = s_vertex2(x@, y@, angle as int);
                v@.len() == 3 && is_dart(v@[0], s.0) && is_kite(v@[1], s.1) && is_kite(v@[2], s.2)
            },
            Err(_) => false,
        },
{
    proof {
        lemma2_to64();
        lemma_norm360_mod36(angle as int);
        lemma_bnd_mono(x@, 10, 11);
        lemma_bnd_mono(y@, 10, 11);
    }
    let t1 = Dart::new(x, y, angle);
    proof {
        assert(tile_bnd(t1@, 11));
        lemma_tile_bnd_mono(t1@, 11, 24);
    }
    let t2 = next_kite_from_dart(&t1, 2, 4);
    proof {
        assert(tile_bnd(t2@, 13));
        lemma_tile_bnd_mono(t2@, 13, 24);
    }
    let t3 = next_kite_from_kite(&t2, 4, 1);
    proof {
        assert(tile_bnd(t3@, 15));
    }
    proof {
        let s = s_vertex2(x@, y@, angle as int);
        assert(t1@ == s.0);
        assert(t2@ == s.1);
        assert(t3@ == s.2);
    }
    let tiles: Vec<Tile> = vec![Tile::Dart(t1), Tile::Kite(t2), Tile::Kite(t3)];
    proof {
        assert(tiles@[0] == Tile::Dart(t1) && tiles@[1] == Tile::Kite(t2) && tiles@[2] == Tile::Kite(t3));
    }
    Ok(tiles)
}

/// The pose chain of vertex configuration 3.
pub open spec fn s_vertex3(x: Quartic, y: Quartic, a: int) -> (TilePose, TilePose, TilePose, TilePose, TilePose) {
    let t1 = TilePose { x: x.plus(qc(1, 1, 0, 0, 1)), y: y, angle: norm360(a) };
    let t2 = s_place_kite(1, s_kite_edge_center(t1, 4), s_kite_edge_angle(t1, 4));
    let t3 = s_place_kite(1, s_kite_edge_center(t2, 4), s_kite_edge_angle(t2, 4));
    let t4 = s_place_kite(1, s_kite_edge_center(t3, 4), s_kite_edge_angle(t3, 4));
    let t5 = s_place_kite(1, s_kite_edge_center(t4, 4), s_kite_edge_angle(t4, 4));
    (t1, t2, t3, t4, t5)
}

/// Vertex configuration 3: five kites around a point, built by chained
/// edge-matching placements from one seed tile at (x, y) with
/// orientation `angle`.  The recipe only requests edges 1..4, so it
/// always succeeds on the inputs the contract admits.
#[verifier::rlimit(60)]
pub fn build_vertex3(x: Coord, y: Coord, angle: i32) -> (r: Result<Vec<Tile>, PenroseError>)
    requires
        angle % 36 == 0,
        x@.bnd(10),
        y@.bnd(10),
        x@.k <= 10,
        y@.k <= 10,
    ensures
        match r {
            Ok(v) => {
                let s = s_vertex3(x@, y@, angle as int);
                v@.len() == 5 && is_kite(v@[0], s.0) && is_kite(v@[1], s.1) && is_kite(v@[2], s.2) && is_kite(v@[3], s.3) && is_kite(v@[4], s.4)
            },
            Err(_) => false,
        },
{
    let c_phi = Coord::phi();
    proof {
        lemma2_to64();
        lemma_norm360_mod36(angle as int);
        lemma_bnd_mono(x@, 10, 28);
        lemma_bnd_mono(c_phi@, 0, 10);
        lemma_bnd_plus(x@, c_phi@, 10);
        lemma_bnd_mono(c_phi@, 0, 28);
        lemma_bnd_mono(y@, 10, 11);
    }
    let t1 = Kite::new(x.add(&c_phi), y, angle);
    proof {
        assert(tile_bnd(t1@, 11));
        lemma_tile_bnd_mono(t1@, 11, 24);
    }
    let t2 = next_kite_from_kite(&t1, 1, 4);
    proof {
        assert(tile_bnd(t2@, 13));
        lemma_tile_bnd_mono(t2@, 13, 24);
    }
    let t3 = next_kite_from_kite(&t2, 1, 4);
    proof {
        assert(tile_bnd(t3@, 15));
        lemma_tile_bnd_mono(t3@, 15, 24);
    }
    let t4 = next_kite_from_kite(&t3, 1, 4);
    proof {
        assert(tile_bnd(t4@, 17));
        lemma_tile_bnd_mono(t4@, 17, 24);
    }
    let t5 = next_kite_from_kite(&t4, 1, 4);
    proof {
        assert(tile_bnd(t5@, 19));
    }
    proof {
        let s = s_vertex3(x@, y@, angle as int);
        assert(t1@ == s.0);
        assert(t2@ == s.1);
        assert(t3@ == s.2);
        assert(t4@ == s.3);
        assert(t5@ == s.4);
    }
    let tiles: Vec<Tile> = vec![Tile::Kite(t1), Tile::Kite(t2), Tile::Kite(t3), Tile::Kite(t4), Tile::Kite(t5)];
    proof {
        assert(tiles@[0] == Tile::Kite(t1) && tiles@[1] == Tile::Kite(t2) && tiles@[2] == Tile::Kite(t3) && tiles@[3] == Tile::Kite(t4) && tiles@[4] == Tile::Kite(t5));
    }
    Ok(tiles)
}

/// The pose chain of vertex configuration 4.
pub open spec fn s_vertex4(x: Quartic, y: Quartic, a: int) -> (TilePose, TilePose, TilePose, TilePose, TilePose) {
    let t1 = TilePose { x: x.minus(qc(1, 1, 0, 0, 1)), y: y, angle: norm360(a) };
    let t2 = s_place_dart(3, s_dart_edge_center(t1, 2), s_dart_edge_angle(t1, 2));
    let t3 = s_place_kite(1, s_dart_edge_center(t2, 2), s_dart_edge_angle(t2, 2));
    let t4 = s_place_kite(1, s_kite_edge_center(t3, 4), s_kite_edge_angle(t3, 4));
    let t5 = s_place_dart(3, s_kite_edge_center(t4, 4), s_kite_edge_angle(t4, 4));
    (t1, t2, t3, t4, t5)
}

/// Vertex configuration 4: two kites wedged between three darts, built by chained
/// edge-matching placements from one seed tile at (x, y) with
/// orientation `angle`.  The recipe only requests edges 1..4, so it
/// always succeeds on the inputs the contract admits.
#[verifier::rlimit(60)]
pub fn build_vertex4(x: Coord, y: Coord, angle: i32) -> (r: Result<Vec<Tile>, PenroseError>)
    requires
        angle % 36 == 0,
        x@.bnd(10),
        y@.bnd(10),
        x@.k <= 10,
        y@.k <= 10,
    ensures
        match r {
            Ok(v) => {
                let s = s_vertex4(x@, y@, angle as int);
                v@.len() == 5 && is_dart(v@[0], s.0) && is_dart(v@[1], s.1) && is_kite(v@[2], s.2) && is_kite(v@[3], s.3) && is_dart(v@[4], s.4)
            },
            Err(_) => false,
        },
{
    let c_phi = Coord::phi();
    proof {
        lemma2_to64();
        lemma_norm360_mod36(angle as int);
        lemma_bnd_mono(x@, 10, 28);
        lemma_bnd_mono(c_phi@, 0, 10);
        lemma_bnd_minus(x@, c_phi@, 10);
        lemma_bnd_mono(c_phi@, 0, 28);
        lemma_bnd_mono(y@, 10, 11);
    }
    let t1 = Dart::new(x.sub(&c_phi), y, angle);
    proof {
        assert(tile_bnd(t1@, 11));
        lemma_tile_bnd_mono(t1@, 11, 24);
    }
    let t2 = next_dart_from_dart(&t1, 3, 2);
    proof {
        assert(tile_bnd(t2@, 13));
        lemma_tile_bnd_mono(t2@, 13, 24);
    }
    let t3 = next_kite_from_dart(&t2, 1, 2);
    proof {
        assert(tile_bnd(t3@, 15));
        lemma_tile_bnd_mono(t3@, 15, 24);
    }
    let t4 = next_kite_from_kite(&t3, 1, 4);
    proof {
        assert(tile_bnd(t4@, 17));
        lemma_tile_bnd_mono(t4@, 17, 24);
    }
    let t5 = next_dart_from_kite(&t4, 3, 4);
    proof {
        assert(tile_bnd(t5@, 19));
    }
    proof {
        let s = s_vertex4(x@, y@, angle as int);
        assert(t1@ == s.0);
        assert(t2@ == s.1);
        assert(t3@ == s.2);
        assert(t4@ == s.3);
        assert(t5@ == s.4);
    }
    let tiles: Vec<Tile> = vec![Tile::Dart(t1), Tile::Dart(t2), Tile::Kite(t3), Tile::Kite(t4), Tile::Dart(t5)];
    proof {
        assert(tiles@[0] == Tile::Dart(t1) && tiles@[1] == Tile::Dart(t2) && tiles@[2] == Tile::Kite(t3) && tiles@[3] == Tile::Kite(t4) && tiles@[4] == Tile::Dart(t5));
    }
    Ok(tiles)
}

/// The pose chain of vertex configuration 5.
pub open spec fn s_vertex5(x: Quartic, y: Quartic, a: int) -> (TilePose, TilePose, TilePose, TilePose, TilePose) {
    let t1 = TilePose { x: x.minus(qc(1, 0, 0, 0, 0)), y: y, angle: norm360(a) };
    let t2 = s_place_dart(4, s_kite_edge_center(t1, 2), s_kite_edge_angle(t1, 2));
    let t3 = s_place_kite(1, s_dart_edge_center(t2, 3), s_dart_edge_angle(t2, 3));
    let t4 = s_place_kite(1, s_kite_edge_center(t3, 4), s_kite_edge_angle(t3, 4));
    let t5 = s_place_dart(2, s_kite_edge_center(t4, 4), s_kite_edge_angle(t4, 4));
    (t1, t2, t3, t4, t5)
}

/// Vertex configuration 5: three kites and two darts, built by chained
/// edge-matching placements from one seed tile at (x, y) with
/// orientation `angle`.  The recipe only requests edges 1..4, so it
/// always succeeds on the inputs the contract admits.
#[verifier::rlimit(60)]
pub fn build_vertex5(x: Coord, y: Coord, angle: i32) -> (r: Result<Vec<Tile>, PenroseError>)
    requires
        angle % 36 == 0,
        x@.bnd(10),
        y@.bnd(10),
        x@.k <= 10,
        y@.k <= 10,
    ensures
        match r {
            Ok(v) => {
                let s = s_vertex5(x@, y@, angle as int);
                v@.len() == 5 && is_kite(v@[0], s.0) && is_dart(v@[1], s.1) && is_kite(v@[2], s.2) && is_kite(v@[3], s.3) && is_dart(v@[4], s.4)
            },
            Err(_) => false,
        },
{
    let c_one = Coord::from_int(1);
    proof {
        lemma2_to64();
        lemma_norm360_mod36(angle as int);
        lemma_bnd_mono(x@, 10, 28);
        lemma_bnd_mono(c_one@, 0, 10);
        lemma_bnd_minus(x@, c_one@, 10);
        lemma_bnd_mono(c_one@, 0, 28);
        lemma_bnd_mono(y@, 10, 11);
    }
    let t1 = Kite::new(x.sub(&c_one), y, angle);
    proof {
        assert(tile_bnd(t1@, 11));
        lemma_tile_bnd_mono(t1@, 11, 24);
    }
    let t2 = next_dart_from_kite(&t1, 4, 2);
    proof {
        assert(tile_bnd(t2@, 13));
        lemma_tile_bnd_mono(t2@, 13, 24);
    }
    let t3 = next_kite_from_dart(&t2, 1, 3);
    proof {
        assert(tile_bnd(t3@, 15));
        lemma_tile_bnd_mono(t3@, 15, 24);
    }
    let t4 = next_kite_from_kite(&t3, 1, 4);
    proof {
        assert(tile_bnd(t4@, 17));
        lemma_tile_bnd_mono(t4@, 17, 24);
    }
    let t5 = next_dart_from_kite(&t4, 2, 4);
    proof {
        assert(tile_bnd(t5@, 19));
    }
    proof {
        let s = s_vertex5(x@, y@, angle as int);
        assert(t1@ == s.0);
        assert(t2@ == s.1);
        assert(t3@ == s.2);
        assert(t4@ == s.3);
        assert(t5@ == s.4);
    }
    let tiles: Vec<Tile> = vec![Tile::Kite(t1), Tile::Dart(t2), Tile::Kite(t3), Tile::Kite(t4), Tile::Dart(t5)];
    proof {
        assert(tiles@[0] == Tile::Kite(t1) && tiles@[1] == Tile::Dart(t2) && tiles@[2] == Tile::Kite(t3) && tiles@[3] == Tile::Kite(t4) && tiles@[4] == Tile::Dart(t5));
    }
    Ok(tiles)
}

/// The pose chain of vertex configuration 6.
pub open spec fn s_vertex6(x: Quartic, y: Quartic, a: int) -> (TilePose, TilePose, TilePose, TilePose, TilePose) {
    let t1 = TilePose { x: x.minus(qc(1, 1, 0, 0, 1)), y: y, angle: norm360(a) };
    let t2 = s_place_kite(4, s_dart_edge_center(t1, 2), s_dart_edge_angle(t1, 2));
    let t3 = s_place_kite(2, s_kite_edge_center(t2, 3), s_kite_edge_angle(t2, 3));
    let t4 = s_place_kite(4, s_kite_edge_center(t3, 1), s_kite_edge_angle(t3, 1));
    let t5 = s_place_kite(2, s_kite_edge_center(t4, 3), s_kite_edge_angle(t4, 3));
    (t1, t2, t3, t4, t5)
}

/// Vertex configuration 6: one dart and four kites, built by chained
/// edge-matching placements from one seed tile at (x, y) with
/// orientation `angle`.  The recipe only requests edges 1..4, so it
/// always succeeds on the inputs the contract admits.
#[verifier::rlimit(60)]
pub fn build_vertex6(x: Coord, y: Coord, angle: i32) -> (r: Result<Vec<Tile>, PenroseError>)
    requires
        angle % 36 == 0,
        x@.bnd(10),
        y@.bnd(10),
        x@.k <= 10,
        y@.k <= 10,
    ensures
        match r {
            Ok(v) => {
                let s = s_vertex6(x@, y@, angle as int);
                v@.len() == 5 && is_dart(v@[0], s.0) && is_kite(v@[1], s.1) && is_kite(v@[2], s.2) && is_kite(v@[3], s.3) && is_kite(v@[4], s.4)
            },
            Err(_) => false,
        },
{
    let c_phi = Coord::phi();
    proof {
        lemma2_to64();
        lemma_norm360_mod36(angle as int);
        lemma_bnd_mono(x@, 10, 28);
        lemma_bnd_mono(c_phi@, 0, 10);
        lemma_bnd_minus(x@, c_phi@, 10);
        lemma_bnd_mono(c_phi@, 0, 28);
        lemma_bnd_mono(y@, 10, 11);
    }
    let t1 = Dart::new(x.sub(&c_phi), y, angle);
    proof {
        assert(tile_bnd(t1@, 11));
        lemma_tile_bnd_mono(t1@, 11, 24);
    }
    let t2 = next_kite_from_dart(&t1, 4, 2);
    proof {
        assert(tile_bnd(t2@, 13));
        lemma_tile_bnd_mono(t2@, 13, 24);
    }
    let t3 = next_kite_from_kite(&t2, 2, 3);
    proof {
        assert(tile_bnd(t3@, 15));
        lemma_tile_bnd_mono(t3@, 15, 24);
    }
    let t4 = next_kite_from_kite(&t3, 4, 1);
    proof {
        assert(tile_bnd(t4@, 17));
        lemma_tile_bnd_mono(t4@, 17, 24);
    }
    let t5 = next_kite_from_kite(&t4, 2, 3);
    proof {
        assert(tile_bnd(t5@, 19));
    }
    proof {
        let s = s_vertex6(x@, y@, angle as int);
        assert(t1@ == s.0);
        assert(t2@ == s.1);
        assert(t3@ == s.2);
        assert(t4@ == s.3);
        assert(t5@ == s.4);
    }
    let tiles: Vec<Tile> = vec![Tile::Dart(t1), Tile::Kite(t2), Tile::Kite(t3), Tile::Kite(t4), Tile::Kite(t5)];
    proof {
        assert(tiles@[0] == Tile::Dart(t1) && tiles@[1] == Tile::Kite(t2) && tiles@[2] == Tile::Kite(t3) && tiles@[3] == Tile::Kite(t4) && tiles@[4] == Tile::Kite(t5));
    }
    Ok(tiles)
}

/// The pose chain of vertex configuration 7.
pub open spec fn s_vertex7(x: Quartic, y: Quartic, a: int) -> (TilePose, TilePose, TilePose, TilePose) {
    let t1 = TilePose { x: x.plus(qc(-1, 1, 0, 0, 2)), y: y.minus(qc(0, 0, 1, 1, 1)), angle: norm360(a) };
    let t2 = s_place_kite(3, s_kite_edge_center(t1, 2), s_kite_edge_angle(t1, 2));
    let t3 = s_place_dart(4, s_kite_edge_center(t2, 2), s_kite_edge_angle(t2, 2));
    let t4 = s_place_dart(2, s_dart_edge_center(t3, 3), s_dart_edge_angle(t3, 3));
    (t1, t2, t3, t4)
}

/// Vertex configuration 7: two kites and two darts, built by chained
/// edge-matching placements from one seed tile at (x, y) with
/// orientation `angle`.  The recipe only requests edges 1..4, so it
/// always succeeds on the inputs the contract admits.
#[verifier::rlimit(60)]
pub fn build_vertex7(x: Coord, y: Coord, angle: i32) -> (r: Result<Vec<Tile>, PenroseError>)
    requires
        angle % 36 == 0,
        x@.bnd(10),
        y@.bnd(10),
        x@.k <= 10,
        y@.k <= 10,
    ensures
        match r {
            Ok(v) => {
                let s = s_vertex7(x@, y@, angle as int);
                v@.len() == 4 && is_kite(v@[0], s.0) && is_kite(v@[1], s.1) && is_dart(v@[2], s.2) && is_dart(v@[3], s.3)
            },
            Err(_) => false,
        },
{
    let c_shift = Coord { a: -1, b: 1, c: 0, d: 0, k: 2 };
    let c_drop = Coord { a: 0, b: 0, c: 1, d: 1, k: 1 };
    proof {
        lemma2_to64();
        lemma_norm360_mod36(angle as int);
        lemma_bnd_mono(x@, 10, 28);
        lemma_bnd_mono(c_shift@, 0, 10);
        lemma_bnd_plus(x@, c_shift@, 10);
        lemma_bnd_mono(c_shift@, 0, 28);
        lemma_bnd_mono(y@, 10, 28);
        lemma_bnd_mono(c_drop@, 0, 10);
        lemma_bnd_minus(y@, c_drop@, 10);
        lemma_bnd_mono(c_drop@, 0, 28);
    }
    let t1 = Kite::new(x.add(&c_shift), y.sub(&c_drop), angle);
    proof {
        assert(tile_bnd(t1@, 11));
        lemma_tile_bnd_mono(t1@, 11, 24);
    }
    let t2 = next_kite_from_kite(&t1, 3, 2);
    proof {
        assert(tile_bnd(t2@, 13));
        lemma_tile_bnd_mono(t2@, 13, 24);
    }
    let t3 = next_dart_from_kite(&t2, 4, 2);
    proof {
        assert(tile_bnd(t3@, 15));
        lemma_tile_bnd_mono(t3@, 15, 24);
    }
    let t4 = next_dart_from_dart(&t3, 2, 3);
    proof {
        assert(tile_bnd(t4@, 17));
    }
    proof {
        let s = s_vertex7(x@, y@, angle as int);
        assert(t1@ == s.0);
        assert(t2@ == s.1);
        assert(t3@ == s.2);
        assert(t4@ == s.3);
    }
    let tiles: Vec<Tile> = vec![Tile::Kite(t1), Tile::Kite(t2), Tile::Dart(t3), Tile::Dart(t4)];
    proof {
        assert(tiles@[0] == Tile::Kite(t1) && tiles@[1] == Tile::Kite(t2) && tiles@[2] == Tile::Dart(t3) && tiles@[3] == Tile::Dart(t4));
    }
    Ok(tiles)
}

} // verus!

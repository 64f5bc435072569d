//! Vertex configuration tests: chained placements and the seven builders.

use penrose::coord::Coord;
use penrose::dart::{place_dart_edge, Dart};
use penrose::kite::{place_kite_edge, Kite};
use penrose::tile::{PenroseError, Point};
use penrose::vertex::{
    build_vertex1, build_vertex2, build_vertex3, build_vertex4, build_vertex5, build_vertex6,
    build_vertex7, Tile,
};

fn cval(c: &Coord) -> f64 {
    let s5 = 5f64.sqrt();
    let s36 = (10.0 - 2.0 * s5).sqrt() / 4.0;
    (c.a as f64 + c.b as f64 * s5 + (c.c as f64 + c.d as f64 * s5) * s36) / 2f64.powi(c.k as i32)
}

fn dist_func(p1: (f64, f64), p2: (f64, f64)) -> f64 {
    let dx = p2.0 - p1.0;
    let dy = p2.1 - p1.1;
    (dx * dx + dy * dy).sqrt()
}

fn center(cx: &Coord, cy: &Coord) -> (f64, f64) {
    (cval(cx), cval(cy))
}

/// Exact value equality of two scalars: cross-scaled numerators agree.
fn ceq(u: &Coord, v: &Coord) -> bool {
    let (lo, hi) = if u.k <= v.k { (u, v) } else { (v, u) };
    let j = hi.k - lo.k;
    (lo.a as i128) << j == hi.a as i128
        && (lo.b as i128) << j == hi.b as i128
        && (lo.c as i128) << j == hi.c as i128
        && (lo.d as i128) << j == hi.d as i128
}

fn zero() -> Coord {
    Coord::from_int(0)
}

fn neg_phi() -> Coord {
    Coord { a: -1, b: -1, c: 0, d: 0, k: 1 }
}

#[test]
fn test_vertex1() {
    let s5 = 5f64.sqrt();
    let phi = (1. + s5) / 2.;

    let d1 = Dart::new(neg_phi(), zero(), 0);
    let d2 = place_dart_edge(3, d1.edge_center(2).unwrap(), d1.edge_angle(2).unwrap()).unwrap();
    let d3 = place_dart_edge(3, d2.edge_center(2).unwrap(), d2.edge_angle(2).unwrap()).unwrap();
    let d4 = place_dart_edge(3, d3.edge_center(2).unwrap(), d3.edge_angle(2).unwrap()).unwrap();
    let d5 = place_dart_edge(3, d4.edge_center(2).unwrap(), d4.edge_angle(2).unwrap()).unwrap();

    let h = (5. + 2. * s5).sqrt() / 2.;
    let k = (2. + s5) / (1. + s5);
    let p = (10. + (20. as f64).sqrt()).sqrt() / 4.;

    assert!(dist_func(center(&d1.cx, &d1.cy), (-phi, 0.)) < 5e-8);
    assert_eq!(d1.angle, 0);

    assert!(dist_func(center(&d2.cx, &d2.cy), (-0.5, -h)) < 5e-8);
    assert_eq!(d2.angle, 72);

    assert!(dist_func(center(&d3.cx, &d3.cy), (k, -p)) < 5e-8);
    assert_eq!(d3.angle, 144);

    assert!(dist_func(center(&d4.cx, &d4.cy), (k, p)) < 5e-8);
    assert_eq!(d4.angle, 216);

    assert!(dist_func(center(&d5.cx, &d5.cy), (-0.5, h)) < 5e-8);
    assert_eq!(d5.angle, 288);
}

#[test]
fn test_vertex2() {
    let d1 = Dart::new(zero(), zero(), 0);
    let k1 = place_kite_edge(2, d1.edge_center(4).unwrap(), d1.edge_angle(4).unwrap()).unwrap();
    let k2 = place_kite_edge(4, k1.edge_center(1).unwrap(), k1.edge_angle(1).unwrap()).unwrap();

    let s5 = 5f64.sqrt();
    let k = (2. + s5) / (1. + s5);
    let p = (10. + (20. as f64).sqrt()).sqrt() / 4.;

    assert!(dist_func(center(&d1.cx, &d1.cy), (0., 0.)) < 5e-8);
    assert_eq!(d1.angle, 0);

    assert!(dist_func(center(&k1.cx, &k1.cy), (-k, p)) < 5e-8);
    assert_eq!(k1.angle, 36);

    assert!(dist_func(center(&k2.cx, &k2.cy), (-k, -p)) < 5e-8);
    assert_eq!(k2.angle, 324);
}

#[test]
fn test_vertex3() {
    let s5 = 5f64.sqrt();
    let phi = (1. + s5) / 2.;

    let k1 = Kite::new(Coord { a: 1, b: 1, c: 0, d: 0, k: 1 }, zero(), 0);
    let k2 = place_kite_edge(1, k1.edge_center(4).unwrap(), k1.edge_angle(4).unwrap()).unwrap();
    let k3 = place_kite_edge(1, k2.edge_center(4).unwrap(), k2.edge_angle(4).unwrap()).unwrap();
    let k4 = place_kite_edge(1, k3.edge_center(4).unwrap(), k3.edge_angle(4).unwrap()).unwrap();
    let k5 = place_kite_edge(1, k4.edge_center(4).unwrap(), k4.edge_angle(4).unwrap()).unwrap();

    let h = (5. + 2. * s5).sqrt() / 2.;
    let k = (2. + s5) / (1. + s5);
    let p = (10. + (20. as f64).sqrt()).sqrt() / 4.;

    assert!(dist_func(center(&k1.cx, &k1.cy), (phi, 0.)) < 5e-8);
    assert_eq!(k1.angle, 0);

    assert!(dist_func(center(&k2.cx, &k2.cy), (0.5, h)) < 5e-8);
    assert_eq!(k2.angle, 72);

    assert!(dist_func(center(&k3.cx, &k3.cy), (-k, p)) < 5e-8);
    assert_eq!(k3.angle, 144);

    assert!(dist_func(center(&k4.cx, &k4.cy), (-k, -p)) < 5e-8);
    assert_eq!(k4.angle, 216);

    assert!(dist_func(center(&k5.cx, &k5.cy), (0.5, -h)) < 5e-8);
    assert_eq!(k5.angle, 288);
}

#[test]
fn test_vertex4() {
    let s5 = 5f64.sqrt();
    let phi = (1. + s5) / 2.;

    let d1 = Dart::new(neg_phi(), zero(), 0);
    let d2 = place_dart_edge(3, d1.edge_center(2).unwrap(), d1.edge_angle(2).unwrap()).unwrap();
    let k1 = place_kite_edge(1, d2.edge_center(2).unwrap(), d2.edge_angle(2).unwrap()).unwrap();
    let k2 = place_kite_edge(1, k1.edge_center(4).unwrap(), k1.edge_angle(4).unwrap()).unwrap();
    let d3 = place_dart_edge(3, k2.edge_center(4).unwrap(), k2.edge_angle(4).unwrap()).unwrap();

    let h = (5. + 2. * s5).sqrt() / 2.;
    let k = (2. + s5) / (1. + s5);
    let p = (10. + (20. as f64).sqrt()).sqrt() / 4.;

    assert!(dist_func(center(&d1.cx, &d1.cy), (-phi, 0.)) < 5e-8);
    assert_eq!(d1.angle, 0);

    assert!(dist_func(center(&d2.cx, &d2.cy), (-0.5, -h)) < 5e-8);
    assert_eq!(d2.angle, 72);

    assert!(dist_func(center(&k1.cx, &k1.cy), (k, -p)) < 5e-8);
    assert_eq!(k1.angle, 324);

    assert!(dist_func(center(&k2.cx, &k2.cy), (k, p)) < 5e-8);
    assert_eq!(k2.angle, 36);

    assert!(dist_func(center(&d3.cx, &d3.cy), (-0.5, h)) < 5e-8);
    assert_eq!(d3.angle, 288);
}

#[test]
fn test_vertex5() {
    let s5 = 5f64.sqrt();

    let k1 = Kite::new(Coord::from_int(-1), zero(), 0);
    let d1 = place_dart_edge(4, k1.edge_center(2).unwrap(), k1.edge_angle(2).unwrap()).unwrap();
    let k2 = place_kite_edge(1, d1.edge_center(3).unwrap(), d1.edge_angle(3).unwrap()).unwrap();
    let k3 = place_kite_edge(1, k2.edge_center(4).unwrap(), k2.edge_angle(4).unwrap()).unwrap();
    let d2 = place_dart_edge(2, k3.edge_center(4).unwrap(), k3.edge_angle(4).unwrap()).unwrap();

    let h = (5. + 2. * s5).sqrt() / 2.;
    let k = (2. + s5) / (1. + s5);
    let p = (10. + (20. as f64).sqrt()).sqrt() / 4.;

    assert!(dist_func(center(&k1.cx, &k1.cy), (-1., 0.)) < 5e-8);
    assert_eq!(k1.angle, 0);

    assert!(dist_func(center(&d1.cx, &d1.cy), (-0.5, -h)) < 5e-8);
    assert_eq!(d1.angle, 324);

    assert!(dist_func(center(&k2.cx, &k2.cy), (k, -p)) < 5e-8);
    assert_eq!(k2.angle, 324);

    assert!(dist_func(center(&k3.cx, &k3.cy), (k, p)) < 5e-8);
    assert_eq!(k3.angle, 36);

    assert!(dist_func(center(&d2.cx, &d2.cy), (-0.5, h)) < 5e-8);
    assert_eq!(d2.angle, 36);
}

#[test]
fn test_vertex6() {
    let s5 = 5f64.sqrt();
    let phi = (1. + s5) / 2.;

    let d1 = Dart::new(neg_phi(), zero(), 0);
    let k1 = place_kite_edge(4, d1.edge_center(2).unwrap(), d1.edge_angle(2).unwrap()).unwrap();
    let k2 = place_kite_edge(2, k1.edge_center(3).unwrap(), k1.edge_angle(3).unwrap()).unwrap();
    let k3 = place_kite_edge(4, k2.edge_center(1).unwrap(), k2.edge_angle(1).unwrap()).unwrap();
    let k4 = place_kite_edge(2, k3.edge_center(3).unwrap(), k3.edge_angle(3).unwrap()).unwrap();

    let h = (5. + 2. * s5).sqrt() / 2.;
    let k = (2. + s5) / (1. + s5);
    let p = (10. + (20. as f64).sqrt()).sqrt() / 4.;

    assert!(dist_func(center(&d1.cx, &d1.cy), (-phi, 0.)) < 5e-8);
    assert_eq!(d1.angle, 0);

    assert!(dist_func(center(&k1.cx, &k1.cy), (-0.5, -h)) < 5e-8);
    assert_eq!(k1.angle, 0);

    assert!(dist_func(center(&k2.cx, &k2.cy), (k, -p)) < 5e-8);
    assert_eq!(k2.angle, 216);

    assert!(dist_func(center(&k3.cx, &k3.cy), (k, p)) < 5e-8);
    assert_eq!(k3.angle, 144);

    assert!(dist_func(center(&k4.cx, &k4.cy), (-0.5, h)) < 5e-8);
    assert_eq!(k4.angle, 0);
}

#[test]
fn test_vertex7() {
    let s5 = 5f64.sqrt();
    let k = (2. + s5) / (1. + s5);
    let p = (10. + (20. as f64).sqrt()).sqrt() / 4.;

    let k1 = Kite::new(
        Coord { a: -1, b: 1, c: 0, d: 0, k: 2 },
        Coord { a: 0, b: 0, c: -1, d: -1, k: 1 },
        108,
    );
    let k2 = place_kite_edge(3, k1.edge_center(2).unwrap(), k1.edge_angle(2).unwrap()).unwrap();
    let d1 = place_dart_edge(4, k2.edge_center(2).unwrap(), k2.edge_angle(2).unwrap()).unwrap();
    let d2 = place_dart_edge(2, d1.edge_center(3).unwrap(), d1.edge_angle(3).unwrap()).unwrap();

    assert!(dist_func(center(&k1.cx, &k1.cy), (k - 1., -p)) < 5e-8);
    assert_eq!(k1.angle, 108);

    assert!(dist_func(center(&k2.cx, &k2.cy), (k - 1., p)) < 5e-8);
    assert_eq!(k2.angle, 252);

    assert!(dist_func(center(&d1.cx, &d1.cy), (-k, p)) < 5e-8);
    assert_eq!(d1.angle, 216);

    assert!(dist_func(center(&d2.cx, &d2.cy), (-k, -p)) < 5e-8);
    assert_eq!(d2.angle, 144);
}

#[test]
fn test_placement_joins_exactly() {
    // Gluing a kite's edge 2 to a dart's edge 4 puts the glued edge's
    // midpoint exactly on the anchor point, not merely within a tolerance,
    // and turns its direction by exactly 180 degrees.
    let d = Dart::new(Coord::from_int(7), Coord::from_int(-3), 72);
    let anchor: Point = d.edge_center(4).unwrap();
    let ang = d.edge_angle(4).unwrap();
    let k = place_kite_edge(2, anchor, ang).unwrap();
    let glued = k.edge_center(2).unwrap();
    assert!(ceq(&glued.x, &anchor.x));
    assert!(ceq(&glued.y, &anchor.y));
    assert_eq!(k.edge_angle(2).unwrap(), (ang + 180) % 360);

    let d2 = place_dart_edge(3, anchor, ang).unwrap();
    let glued2 = d2.edge_center(3).unwrap();
    assert!(ceq(&glued2.x, &anchor.x));
    assert!(ceq(&glued2.y, &anchor.y));
    assert_eq!(d2.edge_angle(3).unwrap(), (ang + 180) % 360);
}

#[test]
fn test_invalid_placement() {
    let pt = Point { x: Coord::from_int(0), y: Coord::from_int(0) };
    assert!(matches!(place_dart_edge(0, pt, 0), Err(PenroseError::InvalidEdgeIndex(0))));
    assert!(matches!(place_dart_edge(5, pt, 36), Err(PenroseError::InvalidEdgeIndex(5))));
    assert!(matches!(place_kite_edge(0, pt, 72), Err(PenroseError::InvalidEdgeIndex(0))));
    assert!(matches!(place_kite_edge(5, pt, 108), Err(PenroseError::InvalidEdgeIndex(5))));
}

#[test]
fn test_build_vertex1_matches_chain() {
    let tiles = build_vertex1(zero(), zero(), 0).unwrap();
    assert_eq!(tiles.len(), 5);
    let angles = [0, 72, 144, 216, 288];
    for (i, t) in tiles.iter().enumerate() {
        match t {
            Tile::Dart(d) => assert_eq!(d.angle, angles[i]),
            Tile::Kite(_) => panic!("expected a dart"),
        }
    }
    match &tiles[0] {
        Tile::Dart(d) => {
            assert!(ceq(&d.cx, &neg_phi()));
            assert!(ceq(&d.cy, &zero()));
        },
        Tile::Kite(_) => panic!("expected a dart"),
    }
}

#[test]
fn test_build_catalog_shapes() {
    let z = Coord::from_int(0);
    let counts = [
        (build_vertex1(z, z, 0).unwrap().len(), 5),
        (build_vertex2(z, z, 36).unwrap().len(), 3),
        (build_vertex3(z, z, 72).unwrap().len(), 5),
        (build_vertex4(z, z, 108).unwrap().len(), 5),
        (build_vertex5(z, z, 144).unwrap().len(), 5),
        (build_vertex6(z, z, 180).unwrap().len(), 5),
        (build_vertex7(z, z, 324).unwrap().len(), 4),
    ];
    for (got, want) in counts {
        assert_eq!(got, want);
    }
    let six = build_vertex6(z, z, 0).unwrap();
    assert!(matches!(six[0], Tile::Dart(_)));
    assert!(matches!(six[1], Tile::Kite(_)));
    assert!(matches!(six[4], Tile::Kite(_)));
}

//! Per-tile tests: construction, angle tables, edge geometry.

use penrose::coord::Coord;
use penrose::dart::Dart;
use penrose::kite::Kite;
use penrose::tile::{EdgeLength, PenroseError, Point};

fn cval(c: &Coord) -> f64 {
    let s5 = 5f64.sqrt();
    let s36 = (10.0 - 2.0 * s5).sqrt() / 4.0;
    (c.a as f64 + c.b as f64 * s5 + (c.c as f64 + c.d as f64 * s5) * s36) / 2f64.powi(c.k as i32)
}

fn pt(p: &Point) -> (f64, f64) {
    (cval(&p.x), cval(&p.y))
}

fn angle_func(p: ((f64, f64), (f64, f64))) -> i32 {
    let dx = p.1.0 - p.0.0;
    let dy = p.1.1 - p.0.1;
    (360 + (dy.atan2(dx) * 180. / std::f64::consts::PI).round() as i32) % 360
}

fn midpt_func(p: ((f64, f64), (f64, f64))) -> (f64, f64) {
    ((p.0.0 + p.1.0) / 2., (p.0.1 + p.1.1) / 2.)
}

fn zero() -> Coord {
    Coord::from_int(0)
}

#[test]
fn test_dart_new() {
    let d1 = Dart::new(zero(), zero(), 0);
    assert_eq!(cval(&d1.cx), 0.);
    assert_eq!(cval(&d1.cy), 0.);
    assert_eq!(d1.angle, 0);

    let d2 = Dart::new(zero(), zero(), -40);
    assert_eq!(cval(&d2.cx), 0.);
    assert_eq!(cval(&d2.cy), 0.);
    assert_eq!(d2.angle, 320);

    let d3 = Dart::new(zero(), zero(), 400);
    assert_eq!(cval(&d3.cx), 0.);
    assert_eq!(cval(&d3.cy), 0.);
    assert_eq!(d3.angle, 40);
}

#[test]
fn test_dart_angle_internal() {
    let internal_angles = [36, 72, 36, 216];
    let d = Dart::new(zero(), zero(), 0);
    assert_eq!(
        (d.edge_angle(1).unwrap() + (540 - internal_angles[0])) % 360,
        d.edge_angle(2).unwrap()
    );
    assert_eq!(
        (d.edge_angle(2).unwrap() + (540 - internal_angles[1])) % 360,
        d.edge_angle(3).unwrap()
    );
    assert_eq!(
        (d.edge_angle(3).unwrap() + (540 - internal_angles[2])) % 360,
        d.edge_angle(4).unwrap()
    );
    assert_eq!(
        (d.edge_angle(4).unwrap() + (540 - internal_angles[3])) % 360,
        d.edge_angle(1).unwrap()
    );
}

#[test]
fn test_dart_angle_0() {
    let d = Dart::new(zero(), zero(), 0);
    assert_eq!(d.edge_angle(1).unwrap(), 252);
    assert_eq!(d.edge_angle(2).unwrap(), 36);
    assert_eq!(d.edge_angle(3).unwrap(), 144);
    assert_eq!(d.edge_angle(4).unwrap(), 288);
}

#[test]
fn test_dart_angle_90() {
    let d = Dart::new(zero(), zero(), 90);
    assert_eq!(d.edge_angle(1).unwrap(), 342);
    assert_eq!(d.edge_angle(2).unwrap(), 126);
    assert_eq!(d.edge_angle(3).unwrap(), 234);
    assert_eq!(d.edge_angle(4).unwrap(), 18);
}

#[test]
fn test_dart_angle_m270() {
    let d = Dart::new(zero(), zero(), -270);
    assert_eq!(d.edge_angle(1).unwrap(), 342);
    assert_eq!(d.edge_angle(2).unwrap(), 126);
    assert_eq!(d.edge_angle(3).unwrap(), 234);
    assert_eq!(d.edge_angle(4).unwrap(), 18);
}

#[test]
fn test_dart_angle_180() {
    let d = Dart::new(zero(), zero(), 180);
    assert_eq!(d.edge_angle(1).unwrap(), 72);
    assert_eq!(d.edge_angle(2).unwrap(), 216);
    assert_eq!(d.edge_angle(3).unwrap(), 324);
    assert_eq!(d.edge_angle(4).unwrap(), 108);
}

#[test]
fn test_dart_angle_m180() {
    let d = Dart::new(zero(), zero(), -180);
    assert_eq!(d.edge_angle(1).unwrap(), 72);
    assert_eq!(d.edge_angle(2).unwrap(), 216);
    assert_eq!(d.edge_angle(3).unwrap(), 324);
    assert_eq!(d.edge_angle(4).unwrap(), 108);
}

#[test]
fn test_dart_edge_slopes() {
    let d = Dart::new(zero(), zero(), 0);
    for e in 1..5 {
        let (p1, p2) = d.edge_points(e).unwrap();
        assert_eq!(angle_func((pt(&p1), pt(&p2))), d.edge_angle(e).unwrap());
    }
}

#[test]
fn test_dart_edge_lengths() {
    let d = Dart::new(zero(), zero(), 0);
    assert_eq!(d.edge_length(1).unwrap(), EdgeLength::SHORT);
    assert_eq!(d.edge_length(2).unwrap(), EdgeLength::LONG);
    assert_eq!(d.edge_length(3).unwrap(), EdgeLength::LONG);
    assert_eq!(d.edge_length(4).unwrap(), EdgeLength::SHORT);
}

#[test]
fn test_dart_edge_centers() {
    let d = Dart::new(zero(), zero(), 0);
    for e in 1..5 {
        let (p1, p2) = d.edge_points(e).unwrap();
        let c = d.edge_center(e).unwrap();
        assert_eq!(midpt_func((pt(&p1), pt(&p2))), pt(&c));
    }
}

#[test]
fn test_kite_new() {
    let k1 = Kite::new(zero(), zero(), 0);
    assert_eq!(cval(&k1.cx), 0.);
    assert_eq!(cval(&k1.cy), 0.);
    assert_eq!(k1.angle, 0);

    let k2 = Kite::new(zero(), zero(), -40);
    assert_eq!(cval(&k2.cx), 0.);
    assert_eq!(cval(&k2.cy), 0.);
    assert_eq!(k2.angle, 320);

    let k3 = Kite::new(zero(), zero(), 400);
    assert_eq!(cval(&k3.cx), 0.);
    assert_eq!(cval(&k3.cy), 0.);
    assert_eq!(k3.angle, 40);
}

#[test]
fn test_kite_angle_internal() {
    let internal_angles = [72, 144, 72, 72];
    let k = Kite::new(zero(), zero(), 0);
    assert_eq!(
        (k.edge_angle(1).unwrap() + (540 - internal_angles[0])) % 360,
        k.edge_angle(2).unwrap()
    );
    assert_eq!(
        (k.edge_angle(2).unwrap() + (540 - internal_angles[1])) % 360,
        k.edge_angle(3).unwrap()
    );
    assert_eq!(
        (k.edge_angle(3).unwrap() + (540 - internal_angles[2])) % 360,
        k.edge_angle(4).unwrap()
    );
    assert_eq!(
        (k.edge_angle(4).unwrap() + (540 - internal_angles[3])) % 360,
        k.edge_angle(1).unwrap()
    );
}

#[test]
fn test_kite_angle_0() {
    let k = Kite::new(zero(), zero(), 0);
    assert_eq!(k.edge_angle(1).unwrap(), 324);
    assert_eq!(k.edge_angle(2).unwrap(), 72);
    assert_eq!(k.edge_angle(3).unwrap(), 108);
    assert_eq!(k.edge_angle(4).unwrap(), 216);
}

#[test]
fn test_kite_angle_90() {
    let k = Kite::new(zero(), zero(), 90);
    assert_eq!(k.edge_angle(1).unwrap(), 54);
    assert_eq!(k.edge_angle(2).unwrap(), 162);
    assert_eq!(k.edge_angle(3).unwrap(), 198);
    assert_eq!(k.edge_angle(4).unwrap(), 306);
}

#[test]
fn test_kite_angle_m270() {
    let k = Kite::new(zero(), zero(), -270);
    assert_eq!(k.edge_angle(1).unwrap(), 54);
    assert_eq!(k.edge_angle(2).unwrap(), 162);
    assert_eq!(k.edge_angle(3).unwrap(), 198);
    assert_eq!(k.edge_angle(4).unwrap(), 306);
}

#[test]
fn test_kite_angle_180() {
    let k = Kite::new(zero(), zero(), 180);
    assert_eq!(k.edge_angle(1).unwrap(), 144);
    assert_eq!(k.edge_angle(2).unwrap(), 252);
    assert_eq!(k.edge_angle(3).unwrap(), 288);
    assert_eq!(k.edge_angle(4).unwrap(), 36);
}

#[test]
fn test_kite_angle_m180() {
    let k = Kite::new(zero(), zero(), -180);
    assert_eq!(k.edge_angle(1).unwrap(), 144);
    assert_eq!(k.edge_angle(2).unwrap(), 252);
    assert_eq!(k.edge_angle(3).unwrap(), 288);
    assert_eq!(k.edge_angle(4).unwrap(), 36);
}

#[test]
fn test_kite_edge_slopes() {
    let k = Kite::new(zero(), zero(), 0);
    for e in 1..5 {
        let (p1, p2) = k.edge_points(e).unwrap();
        assert_eq!(angle_func((pt(&p1), pt(&p2))), k.edge_angle(e).unwrap());
    }
}

#[test]
fn test_kite_edge_lengths() {
    let k = Kite::new(zero(), zero(), 0);
    assert_eq!(k.edge_length(1).unwrap(), EdgeLength::LONG);
    assert_eq!(k.edge_length(2).unwrap(), EdgeLength::SHORT);
    assert_eq!(k.edge_length(3).unwrap(), EdgeLength::SHORT);
    assert_eq!(k.edge_length(4).unwrap(), EdgeLength::LONG);
}

#[test]
fn test_kite_edge_centers() {
    let k = Kite::new(zero(), zero(), 0);
    for e in 1..5 {
        let (p1, p2) = k.edge_points(e).unwrap();
        let c = k.edge_center(e).unwrap();
        assert_eq!(midpt_func((pt(&p1), pt(&p2))), pt(&c));
    }
}

#[test]
fn test_invalid_edge_index() {
    let d = Dart::new(zero(), zero(), 0);
    let k = Kite::new(zero(), zero(), 0);
    assert!(matches!(d.edge_angle(0), Err(PenroseError::InvalidEdgeIndex(0))));
    assert!(matches!(d.edge_length(5), Err(PenroseError::InvalidEdgeIndex(5))));
    assert!(matches!(d.edge_center(-1), Err(PenroseError::InvalidEdgeIndex(-1))));
    assert!(matches!(d.edge_points(9), Err(PenroseError::InvalidEdgeIndex(9))));
    assert!(matches!(k.edge_angle(5), Err(PenroseError::InvalidEdgeIndex(5))));
    assert!(matches!(k.edge_length(0), Err(PenroseError::InvalidEdgeIndex(0))));
    assert!(matches!(k.edge_center(7), Err(PenroseError::InvalidEdgeIndex(7))));
    assert!(matches!(k.edge_points(0), Err(PenroseError::InvalidEdgeIndex(0))));
    assert!(matches!(
        penrose::tile::edge_index_to_vertex_tuple(6),
        Err(PenroseError::InvalidEdgeIndex(6))
    ));
}

#[test]
fn test_rotate_and_translate() {
    let d = Dart::new(Coord::from_int(3), Coord::from_int(-2), 100);
    let r = d.rotate(-140);
    assert_eq!(r.angle, 320);
    assert_eq!(cval(&r.cx), 3.);
    assert_eq!(cval(&r.cy), -2.);
    let t = d.translate(&Coord::from_int(-5), &Coord::phi());
    assert_eq!(t.angle, 100);
    assert_eq!(cval(&t.cx), -2.);
    assert_eq!(cval(&t.cy), -2. + cval(&Coord::phi()));
}

#[test]
fn test_dart_vertices_at_origin() {
    let d = Dart::new(zero(), zero(), 0);
    let v = d.vertices();
    let phi = (1. + 5f64.sqrt()) / 2.;
    let h = (5. + 2. * 5f64.sqrt()).sqrt() / 2.;
    assert_eq!(pt(&v[0]), (0., 0.));
    assert!((pt(&v[1]).0 - (-0.5)).abs() < 1e-12 && (pt(&v[1]).1 - (-h)).abs() < 1e-12);
    assert!((pt(&v[2]).0 - phi).abs() < 1e-12 && pt(&v[2]).1.abs() < 1e-12);
    assert!((pt(&v[3]).0 - (-0.5)).abs() < 1e-12 && (pt(&v[3]).1 - h).abs() < 1e-12);
}

#[test]
fn test_polygon_scale_offset() {
    let d = Dart::new(zero(), zero(), 0);
    let poly = d.polygon(&Coord::from_int(3), &Coord::from_int(4), &Coord::from_int(2));
    let v = d.vertices();
    for i in 0..4 {
        assert!((pt(&poly[i]).0 - (pt(&v[i]).0 * 2. + 3.)).abs() < 1e-12);
        assert!((pt(&poly[i]).1 - (pt(&v[i]).1 * 2. + 4.)).abs() < 1e-12);
    }
}

//! Arc blend geometry: colinear detection, radius bounds, and the
//! distance of the arc endpoints from the center.

use trajgen::arc_blend::ArcBlend;
use trajgen::fx::FX_ONE;
use trajgen::trapezoidal_non_zero_3d::Lim;
use trajgen::vec3::Coord3;

fn fx(units: i64) -> i64 {
    units * FX_ONE
}

fn approx(a: i64, b: i64, tol: i64) -> bool {
    (a - b).abs() <= tol
}

fn dist(a: Coord3, b: Coord3) -> i64 {
    a.minus(&b).norm()
}

fn lim() -> Lim {
    Lim {
        acc: Coord3::new(fx(5), fx(5), fx(5)),
        vel: Coord3::new(fx(2), fx(2), fx(2)),
    }
}

#[test]
fn colinear() {
    let p1 = Coord3::new(0, 0, 0);
    let p2 = Coord3::new(fx(2), 0, 0);
    let p3 = Coord3::new(fx(5), 0, 0);
    let b = ArcBlend::new(p1, p2, p3, 100_000, 0, lim()).unwrap();
    assert!(b.is_colinear);
    assert_eq!(b.arc_start, p2);
    assert_eq!(b.arc_end, p2);
    assert_eq!(b.arc_radius, 0);
}

#[test]
fn right_angle_with_limit() {
    let p1 = Coord3::new(0, fx(10), 0);
    let p2 = Coord3::new(0, 0, 0);
    let p3 = Coord3::new(fx(10), 0, 0);
    let b = ArcBlend::new(p1, p2, p3, 100_000, 0, lim()).unwrap();
    assert!(!b.is_colinear);
    // Deviation-limited: radius = 0.1 sin(45) / (1 - cos(45)) / tan(45).
    assert!(approx(b.arc_radius, 241_421, 3_000));
    // Both arc endpoints sit on the circle.
    assert!(approx(dist(b.arc_start, b.arc_center), b.arc_radius, 3_000));
    assert!(approx(dist(b.arc_end, b.arc_center), b.arc_radius, 3_000));
    // The radius respects the half-segment and deviation bounds.
    assert!(b.arc_radius <= fx(5));
    assert!(b.time > 0);
}

#[test]
fn right_angle_no_limit() {
    let p1 = Coord3::new(0, 0, 0);
    let p2 = Coord3::new(0, fx(10), 0);
    let p3 = Coord3::new(fx(10), fx(10), 0);
    let b = ArcBlend::new(p1, p2, p3, i64::MAX, 0, lim()).unwrap();
    assert!(!b.is_colinear);
    // Half of either adjacent segment now limits the arc.
    assert!(approx(b.arc_radius, fx(5), 5_000));
    assert!(approx(b.arc_start.x, 0, 3_000));
    assert!(approx(b.arc_start.y, fx(5), 3_000));
    assert!(approx(b.arc_end.x, fx(5), 3_000));
    assert!(approx(b.arc_end.y, fx(10), 3_000));
    assert!(approx(dist(b.arc_start, b.arc_center), b.arc_radius, 5_000));
    assert!(approx(dist(b.arc_end, b.arc_center), b.arc_radius, 5_000));
    // A quarter arc of radius 5 is about 7.85 long.
    assert!(approx(b.arc_len, 7_853_981, 40_000));
}

// Sampling inside the arc: position stays on the circle, velocity and
// acceleration are unit direction vectors.
#[test]
fn arc_samples_on_circle() {
    let p1 = Coord3::new(0, fx(10), 0);
    let p2 = Coord3::new(0, 0, 0);
    let p3 = Coord3::new(fx(10), 0, 0);
    let b = ArcBlend::new(p1, p2, p3, 100_000, 0, lim()).unwrap();
    assert!(b.tp(-1).is_none());
    assert!(b.tp(b.time).is_none());
    let steps = 10;
    for k in 0..steps {
        let t = b.time * k / steps;
        let out = b.tp(t).unwrap();
        assert!(approx(dist(out.pos, b.arc_center), b.arc_radius, 5_000));
        assert!(approx(out.vel.norm(), FX_ONE, 5_000));
        assert!(approx(out.acc.norm(), FX_ONE, 5_000));
    }
}

// The tangent directions at the arc ends line up with the adjacent
// segment directions.
#[test]
fn end_tangents_follow_path() {
    let p1 = Coord3::new(0, fx(10), 0);
    let p2 = Coord3::new(0, 0, 0);
    let p3 = Coord3::new(fx(10), 0, 0);
    let b = ArcBlend::new(p1, p2, p3, 100_000, 0, lim()).unwrap();
    let ts = b.start_tangent();
    let te = b.end_tangent();
    // Entering downward along -Y, leaving along +X.
    assert!(ts.y < -900_000);
    assert!(te.x > 900_000);
}

// The colinearity tolerance is one thousandth on the half-angle sine: a
// corner bending by a few milliradians still gets an arc, a fraction of a
// milliradian does not.
#[test]
fn colinear_threshold() {
    let p1 = Coord3::new(0, 0, 0);
    let p2 = Coord3::new(fx(1), 0, 0);
    let bent = ArcBlend::new(p1, p2, Coord3::new(fx(2), 4_000, 0), 100_000, 0, lim()).unwrap();
    assert!(!bent.is_colinear);
    let nearly = ArcBlend::new(p1, p2, Coord3::new(fx(2), 500, 0), 100_000, 0, lim()).unwrap();
    assert!(nearly.is_colinear);
}

//! Scalar and multi-axis trapezoidal profile behavior, including the
//! published reference examples.

use trajgen::errors::TrajError;
use trajgen::fx::FX_ONE;
use trajgen::trapezoidal_non_zero::{Lim as Lim1, Out as Out1, Segment as Segment1};
use trajgen::trapezoidal_non_zero_3d::{Lim, Phase, Segment};
use trajgen::vec3::Coord3;

fn fx(units: i64) -> i64 {
    units * FX_ONE
}

fn approx(a: i64, b: i64, tol: i64) -> bool {
    (a - b).abs() <= tol
}

// Single axis: ignore Y and Z. Reference example with a reachable
// velocity limit: accel 0.5 s, decel 0.8 s, total about 3.44 s.
#[test]
fn book_example_3_7_a() {
    let lim = Lim1 { vel: fx(10), acc: fx(10) };
    let seg = Segment1::new(0, fx(30), fx(5), fx(2), &lim).unwrap();
    assert_eq!(seg.vlim, fx(10));
    assert_eq!(seg.t_a, 500_000);
    assert_eq!(seg.t_d, 800_000);
    assert_eq!(seg.total_time, 3_445_000);
    assert!(approx(seg.t_a, 500_000, 10_000));
    assert!(approx(seg.t_d, 800_000, 10_000));
    assert!(approx(seg.total_time, 3_440_000, 10_000));
}

// Single axis: ignore Y and Z. Same displacement with a higher velocity
// limit that is never reached: peak about 17.7, total about 2.84 s.
#[test]
fn book_example_3_7_b() {
    let lim = Lim1 { vel: fx(20), acc: fx(10) };
    let seg = Segment1::new(0, fx(30), fx(5), fx(2), &lim).unwrap();
    assert!(approx(seg.vlim, 17_700_000, 50_000));
    assert!(approx(seg.t_a, 1_270_000, 10_000));
    assert!(approx(seg.t_d, 1_570_000, 10_000));
    assert!(approx(seg.total_time, 2_840_000, 10_000));
}

#[test]
fn book_example_3_3() {
    let q0 = Coord3::new(0, 0, 0);
    let q1 = Coord3::new(fx(50), fx(-40), fx(20));
    let v0 = Coord3::zeros();
    let v1 = Coord3::zeros();
    let lim = Lim {
        vel: Coord3::new(fx(20), fx(20), fx(20)),
        acc: Coord3::new(fx(20), fx(20), fx(20)),
    };
    let seg = Segment::new(q0, q1, v0, v1, 0, &lim).unwrap();
    assert_eq!(seg.t_a, fx(1));
    assert_eq!(seg.t_d, fx(1));
    assert_eq!(seg.total_time, 3_500_000);
    assert_eq!(seg.vlim.x, fx(20));
    assert_eq!(seg.vlim.y, fx(-16));
    assert_eq!(seg.vlim.z, fx(8));
}

#[test]
fn test() {
    let q0 = Coord3::zeros();
    let q1 = Coord3::new(fx(10), fx(15), fx(20));
    let lim = Lim {
        vel: Coord3::new(fx(2), fx(2), fx(2)),
        acc: Coord3::new(fx(5), fx(5), fx(5)),
    };
    let seg = Segment::new(q0, q1, Coord3::zeros(), Coord3::zeros(), 0, &lim).unwrap();
    assert_eq!(seg.t_a, 400_000);
    assert_eq!(seg.total_time, 10_400_000);
    assert_eq!(seg.vlim.z, fx(2));
}

// Sampling a segment at its boundary times reproduces the boundary
// conditions exactly.
#[test]
fn boundary_continuity() {
    let q0 = Coord3::new(0, 0, 0);
    let q1 = Coord3::new(fx(50), fx(-40), fx(20));
    let lim = Lim {
        vel: Coord3::new(fx(20), fx(20), fx(20)),
        acc: Coord3::new(fx(20), fx(20), fx(20)),
    };
    let seg = Segment::new(q0, q1, Coord3::zeros(), Coord3::zeros(), 7_000_000, &lim).unwrap();
    let (start, phase) = seg.tp(7_000_000).unwrap();
    assert!(matches!(phase, Phase::Accel));
    assert_eq!(start.pos, q0);
    assert_eq!(start.vel, Coord3::zeros());
    let (end, phase) = seg.tp(7_000_000 + seg.total_time).unwrap();
    assert!(matches!(phase, Phase::Decel));
    assert_eq!(end.pos, q1);
    assert_eq!(end.vel, Coord3::zeros());
    assert!(seg.tp(7_000_000 + seg.total_time + 1).is_none());
}

// Sampled velocity never exceeds the per-axis peak (and the peak equals
// the limit on the governing axis here).
#[test]
fn velocity_envelope() {
    let q0 = Coord3::zeros();
    let q1 = Coord3::new(fx(50), fx(-40), fx(20));
    let lim = Lim {
        vel: Coord3::new(fx(20), fx(20), fx(20)),
        acc: Coord3::new(fx(20), fx(20), fx(20)),
    };
    let seg = Segment::new(q0, q1, Coord3::zeros(), Coord3::zeros(), 0, &lim).unwrap();
    let steps = 40;
    for k in 0..=steps {
        let t = seg.total_time * k / steps;
        let (out, _) = seg.tp(t).unwrap();
        assert!(out.vel.x.abs() <= seg.vlim.x.abs());
        assert!(out.vel.y.abs() <= seg.vlim.y.abs());
        assert!(out.vel.z.abs() <= seg.vlim.z.abs());
        assert!(out.vel.x.abs() <= lim.vel.x);
        assert!(out.vel.y.abs() <= lim.vel.y);
        assert!(out.vel.z.abs() <= lim.vel.z);
    }
}

// The total duration decomposes into accel, cruise and decel phases.
#[test]
fn phase_decomposition() {
    let lim = Lim1 { vel: fx(10), acc: fx(10) };
    let seg = Segment1::new(0, fx(30), fx(5), fx(2), &lim).unwrap();
    let cruise = seg.total_time - seg.t_a - seg.t_d;
    assert!(cruise >= 0);
    assert_eq!(seg.t_a + cruise + seg.t_d, seg.total_time);
}

#[test]
fn rejects_non_positive_limits() {
    let lim = Lim1 { vel: 0, acc: fx(10) };
    assert_eq!(Segment1::new(0, fx(30), 0, 0, &lim), Err(TrajError::InvalidLimits));
    let lim3 = Lim {
        vel: Coord3::new(fx(5), fx(5), 0),
        acc: Coord3::new(fx(10), fx(10), fx(10)),
    };
    let r = Segment::new(
        Coord3::zeros(),
        Coord3::new(fx(1), 0, 0),
        Coord3::zeros(),
        Coord3::zeros(),
        0,
        &lim3,
    );
    assert_eq!(r, Err(TrajError::InvalidLimits));
}

// Entering a short stroke faster than the velocity limit cannot form a
// trapezoid: the ramp durations would be negative.
#[test]
fn rejects_infeasible_entry_speed() {
    let lim = Lim1 { vel: fx(1), acc: fx(1) };
    let r = Segment1::new(0, fx(10), fx(2), 0, &lim);
    assert_eq!(r, Err(TrajError::Infeasible));
}

// A mirrored displacement gives the mirrored profile.
#[test]
fn sign_normalized_descent() {
    let lim = Lim1 { vel: fx(10), acc: fx(10) };
    let seg = Segment1::new(0, fx(-30), fx(-5), fx(-2), &lim).unwrap();
    assert_eq!(seg.t_a, 500_000);
    assert_eq!(seg.t_d, 800_000);
    assert_eq!(seg.total_time, 3_445_000);
    let out = seg.tp(0).unwrap();
    assert_eq!(out.pos, 0);
    assert_eq!(out.vel, fx(-5));
}

// Samples support component-wise addition, and a segment knows its span.
#[test]
fn sample_addition_and_span() {
    let a = Out1 { pos: fx(1), vel: fx(2), acc: fx(3) };
    let b = Out1 { pos: fx(10), vel: fx(-1), acc: 0 };
    let s = a.add(b);
    assert_eq!(s, Out1 { pos: fx(11), vel: fx(1), acc: fx(3) });

    let lim = Lim1 { vel: fx(10), acc: fx(10) };
    let seg = Segment1::new(0, fx(30), fx(5), fx(2), &lim).unwrap();
    assert!(seg.contains(0));
    assert!(seg.contains(seg.total_time - 1));
    assert!(!seg.contains(seg.total_time));
    assert!(!seg.contains(-1));
}

// Sampling outside a segment's own time window returns nothing, on both
// sides.
#[test]
fn out_of_window_is_none() {
    let lim = Lim1 { vel: fx(10), acc: fx(10) };
    let seg = Segment1::new(0, fx(30), fx(5), fx(2), &lim).unwrap();
    assert!(seg.tp(-1).is_none());
    assert!(seg.tp(seg.total_time + 1).is_none());
    assert!(seg.tp(0).is_some());
    assert!(seg.tp(seg.total_time).is_some());

    let lim3 = Lim {
        vel: Coord3::new(fx(20), fx(20), fx(20)),
        acc: Coord3::new(fx(20), fx(20), fx(20)),
    };
    let seg3 = Segment::new(
        Coord3::zeros(),
        Coord3::new(fx(50), fx(-40), fx(20)),
        Coord3::zeros(),
        Coord3::zeros(),
        fx(7),
        &lim3,
    ).unwrap();
    assert!(seg3.tp(fx(7) - 1).is_none());
    assert!(seg3.tp(fx(7)).is_some());
}

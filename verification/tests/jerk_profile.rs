//! The single-axis jerk-limited profile at the crate root.

use trajgen::errors::TrajError;
use trajgen::fx::FX_ONE;
use trajgen::{is_feasible, tp, Lim, Times};

fn fx(units: i64) -> i64 {
    units * FX_ONE
}

// These values give two S curves with constant acceleration sections AND
// a coast section.
#[test]
fn it() {
    let q0 = 0;
    let q1 = fx(20);
    let v0 = 0;
    let v1 = 0;
    let lim = Lim { vel: fx(10), acc: fx(10), jerk: fx(40) };

    let mut times = Times { t_j1: 0, t_j2: 0, t_d: 0, t_a: 0, t_v: 0, total_time: 0 };
    let (total_time, _) = tp(0, q0, q1, v0, v1, &lim, &mut times).unwrap();
    assert!(total_time > 0);
    assert_eq!(times.total_time, total_time);
    assert!(times.t_v > 0);
    assert!(times.t_j1 < times.t_a);

    let mut t = 0;
    while t <= total_time {
        let (reported, values) = tp(t, q0, q1, v0, v1, &lim, &mut times).unwrap();
        assert_eq!(reported, total_time);
        assert!(values.acc.abs() <= lim.acc);
        assert!(values.jerk.abs() <= lim.jerk);
        t += 100_000;
    }
}

// The profile starts at the initial position with the initial velocity
// and zero acceleration.
#[test]
fn jerk_profile_start() {
    let lim = Lim { vel: fx(10), acc: fx(10), jerk: fx(40) };
    let mut times = Times { t_j1: 0, t_j2: 0, t_d: 0, t_a: 0, t_v: 0, total_time: 0 };
    let (_, out) = tp(0, fx(1), fx(20), 0, 0, &lim, &mut times).unwrap();
    assert_eq!(out.pos, fx(1));
    assert_eq!(out.vel, 0);
    assert_eq!(out.acc, 0);
    assert_eq!(out.jerk, fx(40));
}

// A displacement too short for the boundary velocities is a typed error
// and leaves the reported durations untouched.
#[test]
fn infeasible_is_typed_error() {
    let lim = Lim { vel: fx(10), acc: fx(10), jerk: fx(40) };
    assert!(!is_feasible(0, fx(1), fx(9), fx(1), &lim));
    let mut times = Times { t_j1: 7, t_j2: 0, t_d: 0, t_a: 0, t_v: 0, total_time: 0 };
    let r = tp(0, 0, fx(1), fx(9), fx(1), &lim, &mut times);
    assert_eq!(r, Err(TrajError::Infeasible));
    assert_eq!(times.t_j1, 7);
}

#[test]
fn feasibility_boundary() {
    let lim = Lim { vel: fx(10), acc: fx(10), jerk: fx(40) };
    assert!(is_feasible(0, fx(20), 0, 0, &lim));
    assert!(!is_feasible(fx(20), fx(20), fx(1), fx(1), &lim));
}

//! Time-parameterized motion trajectories through spatial waypoints.
//!
//! The engine computes synchronized trapezoidal velocity profiles between
//! waypoints, smooths corners with bounded-deviation circular arc blends, and
//! assembles the pieces into a trajectory that can be sampled at any time.
//! The crate root additionally carries the older single-axis jerk-limited
//! (S-curve) profile that the acceleration-limited model grew out of.
//!
//! All quantities are fixed-point numbers: signed 64-bit integers scaled by
//! one million, so that the whole computation is exact integer arithmetic
//! with saturation, and every formula can be stated and proved.

pub mod arc_blend;
pub mod errors;
pub mod fx;
pub mod segments_blends;
pub mod trapezoidal;
pub mod trapezoidal_non_zero;
pub mod trapezoidal_non_zero_3d;
pub mod vec3;

use vstd::prelude::*;

use crate::errors::TrajError;
use crate::fx::{
    fx_abs, fx_add, fx_div, fx_mul, fx_neg, fx_sqrt, fx_sub, fxs_abs, fxs_add, fxs_div, fxs_mul,
    fxs_neg, fxs_sqrt, fxs_sub, FX_HALF, FX_ONE, FX_TWO,
};

verus! {

/// Limits of the jerk-limited profile.
#[derive(Clone, Copy, Debug, PartialEq, Eq, Structural)]
pub struct Lim {
    pub vel: i64,
    pub acc: i64,
    pub jerk: i64,
}

/// A sample of the jerk-limited profile.
#[derive(Clone, Copy, Debug, PartialEq, Eq, Structural)]
pub struct Out {
    pub pos: i64,
    pub vel: i64,
    pub acc: i64,
    pub jerk: i64,
}

/// Phase durations of the jerk-limited profile.
#[derive(Clone, Copy, Debug, PartialEq, Eq, Structural)]
pub struct Times {
    pub t_j1: i64,
    pub t_j2: i64,
    pub t_d: i64,
    pub t_a: i64,
    pub t_v: i64,
    pub total_time: i64,
}

/// Whether a jerk-limited profile can cover the displacement at all with
/// the given boundary velocities.
pub open spec fn spec_is_feasible(q0: int, q1: int, v0: int, v1: int, lim: Lim) -> bool {
    let amax = lim.acc as int;
    let jmax = lim.jerk as int;
    let star = fxs_sqrt(fxs_div(fxs_abs(fxs_sub(v1, v0)), jmax));
    let limit = fxs_div(amax, jmax);
    let t_j_star = if star <= limit {
        star
    } else {
        limit
    };
    let delta = fxs_sub(q1, q0);
    if t_j_star < limit {
        delta > fxs_mul(t_j_star, fxs_add(v0, v1))
    } else if t_j_star == limit {
        delta > fxs_mul(
            fxs_mul(FX_HALF as int, fxs_add(v0, v1)),
            fxs_add(t_j_star, fxs_div(fxs_abs(fxs_sub(v1, v0)), amax)),
        )
    } else {
        false
    }
}

/// Test feasibility of a jerk-limited profile.
pub fn is_feasible(q0: i64, q1: i64, v0: i64, v1: i64, lim: &Lim) -> (r: bool)
    ensures
        r == spec_is_feasible(q0 as int, q1 as int, v0 as int, v1 as int, *lim),
{
    let star = fx_sqrt(fx_div(fx_abs(fx_sub(v1, v0)), lim.jerk));
    let limit = fx_div(lim.acc, lim.jerk);
    let t_j_star = if star <= limit {
        star
    } else {
        limit
    };
    let delta = fx_sub(q1, q0);
    if t_j_star < limit {
        delta > fx_mul(t_j_star, fx_add(v0, v1))
    } else if t_j_star == limit {
        delta > fx_mul(
            fx_mul(FX_HALF, fx_add(v0, v1)),
            fx_add(t_j_star, fx_div(fx_abs(fx_sub(v1, v0)), lim.acc)),
        )
    } else {
        false
    }
}

/// The phase durations and the peak velocity of the jerk-limited profile,
/// computed from sign-normalized boundary conditions.
pub open spec fn spec_jerk_plan(q0: int, q1: int, v0: int, v1: int, lim: Lim) -> (Times, int) {
    let vmax = lim.vel as int;
    let amax = lim.acc as int;
    let jmax = lim.jerk as int;
    let delta = fxs_sub(q1, q0);
    let a2 = fxs_mul(amax, amax);
    let man = fxs_mul(fxs_sub(vmax, v0), jmax) < a2;
    let mdn = fxs_mul(fxs_sub(vmax, v1), jmax) < a2;
    let t_j1_0 = if man {
        fxs_sqrt(fxs_div(fxs_sub(vmax, v0), jmax))
    } else {
        fxs_div(amax, jmax)
    };
    let t_a_0 = if man {
        fxs_mul(FX_TWO as int, t_j1_0)
    } else {
        fxs_add(t_j1_0, fxs_div(fxs_sub(vmax, v0), amax))
    };
    let t_j2_0 = if mdn {
        fxs_sqrt(fxs_div(fxs_sub(vmax, v1), jmax))
    } else {
        fxs_div(amax, jmax)
    };
    let t_d_0 = if mdn {
        fxs_mul(FX_TWO as int, t_j2_0)
    } else {
        fxs_add(t_j2_0, fxs_div(fxs_sub(vmax, v1), amax))
    };
    let t_v_0 = fxs_sub(
        fxs_sub(
            fxs_div(delta, vmax),
            fxs_mul(fxs_mul(t_a_0, FX_HALF as int), fxs_add(FX_ONE as int, fxs_div(v0, vmax))),
        ),
        fxs_mul(fxs_mul(t_d_0, FX_HALF as int), fxs_add(FX_ONE as int, fxs_div(v1, vmax))),
    );
    if t_v_0 < 0 {
        let t_j = fxs_div(amax, jmax);
        let a4 = fxs_mul(a2, a2);
        let j2 = fxs_mul(jmax, jmax);
        let d2 = fxs_add(
            fxs_add(
                fxs_div(a4, j2),
                fxs_mul(FX_TWO as int, fxs_add(fxs_mul(v0, v0), fxs_mul(v1, v1))),
            ),
            fxs_mul(
                amax,
                fxs_sub(
                    fxs_mul(4_000_000, delta),
                    fxs_mul(fxs_div(fxs_mul(FX_TWO as int, amax), jmax), fxs_add(v0, v1)),
                ),
            ),
        );
        let sq = fxs_sqrt(d2);
        let t_a = fxs_mul(
            fxs_mul(fxs_add(fxs_sub(fxs_div(a2, jmax), fxs_mul(FX_TWO as int, v0)), sq), FX_HALF as int),
            amax,
        );
        let t_d = fxs_mul(
            fxs_mul(fxs_add(fxs_sub(fxs_div(a2, jmax), fxs_mul(FX_TWO as int, v1)), sq), FX_HALF as int),
            amax,
        );
        let vlim = fxs_add(v0, fxs_mul(fxs_mul(fxs_sub(t_a, t_j), jmax), t_j));
        (
            Times {
                t_j1: t_j as i64,
                t_j2: t_j as i64,
                t_d: t_d as i64,
                t_a: t_a as i64,
                t_v: 0,
                total_time: fxs_add(fxs_add(t_a, 0), t_d) as i64,
            },
            vlim,
        )
    } else {
        (
            Times {
                t_j1: t_j1_0 as i64,
                t_j2: t_j2_0 as i64,
                t_d: t_d_0 as i64,
                t_a: t_a_0 as i64,
                t_v: t_v_0 as i64,
                total_time: fxs_add(fxs_add(t_a_0, t_v_0), t_d_0) as i64,
            },
            vmax,
        )
    }
}

/// The jerk-limited sample at `t` for a profile starting at time zero:
/// seven regimes (jerk-up, constant acceleration, jerk-down; cruise; and
/// their deceleration mirrors), all zeros past the end.
pub open spec fn spec_jerk_out(
    t: int,
    q0: int,
    q1: int,
    v0: int,
    v1: int,
    jmax: int,
    tm: Times,
    vlim: int,
) -> Out {
    let jmin = fxs_neg(jmax);
    let t_j1 = tm.t_j1 as int;
    let t_j2 = tm.t_j2 as int;
    let t_a = tm.t_a as int;
    let t_d = tm.t_d as int;
    let t_v = tm.t_v as int;
    let total = tm.total_time as int;
    let a_lim_a = fxs_mul(jmax, t_j1);
    let a_lim_d = fxs_neg(fxs_mul(jmax, t_j2));
    if t < t_j1 {
        Out {
            pos: fxs_add(
                fxs_add(q0, fxs_mul(v0, t)),
                fxs_div(fxs_mul(jmax, fxs_mul(fxs_mul(t, t), t)), 6_000_000),
            ) as i64,
            vel: fxs_add(v0, fxs_mul(fxs_mul(jmax, fxs_mul(t, t)), FX_HALF as int)) as i64,
            acc: fxs_mul(jmax, t) as i64,
            jerk: jmax as i64,
        }
    } else if t < fxs_sub(t_a, t_j1) {
        Out {
            pos: fxs_add(
                fxs_add(q0, fxs_mul(v0, t)),
                fxs_mul(
                    fxs_div(a_lim_a, 6_000_000),
                    fxs_add(
                        fxs_sub(
                            fxs_mul(3_000_000, fxs_mul(t, t)),
                            fxs_mul(fxs_mul(3_000_000, t_j1), t),
                        ),
                        fxs_mul(t_j1, t_j1),
                    ),
                ),
            ) as i64,
            vel: fxs_add(v0, fxs_mul(a_lim_a, fxs_sub(t, fxs_mul(t_j1, FX_HALF as int)))) as i64,
            acc: a_lim_a as i64,
            jerk: 0,
        }
    } else if t < t_a {
        Out {
            pos: fxs_sub(
                fxs_sub(
                    fxs_add(q0, fxs_mul(fxs_mul(fxs_add(vlim, v0), t_a), FX_HALF as int)),
                    fxs_mul(vlim, fxs_sub(t_a, t)),
                ),
                fxs_div(
                    fxs_mul(
                        jmin,
                        fxs_mul(fxs_mul(fxs_sub(t_a, t), fxs_sub(t_a, t)), fxs_sub(t_a, t)),
                    ),
                    6_000_000,
                ),
            ) as i64,
            vel: fxs_add(
                vlim,
                fxs_mul(fxs_mul(jmin, fxs_mul(fxs_sub(t_a, t), fxs_sub(t_a, t))), FX_HALF as int),
            ) as i64,
            acc: fxs_neg(fxs_mul(jmin, fxs_sub(t_a, t))) as i64,
            jerk: jmin as i64,
        }
    } else if t < fxs_add(t_a, t_v) {
        Out {
            pos: fxs_add(
                fxs_add(q0, fxs_mul(fxs_mul(fxs_add(vlim, v0), t_a), FX_HALF as int)),
                fxs_mul(vlim, fxs_sub(t, t_a)),
            ) as i64,
            vel: vlim as i64,
            acc: 0,
            jerk: 0,
        }
    } else if t < fxs_add(fxs_sub(total, t_d), t_j2) {
        let td0 = fxs_add(fxs_sub(t, total), t_d);
        Out {
            pos: fxs_sub(
                fxs_add(
                    fxs_sub(q1, fxs_mul(fxs_mul(fxs_add(vlim, v1), t_d), FX_HALF as int)),
                    fxs_mul(vlim, td0),
                ),
                fxs_div(fxs_mul(jmax, fxs_mul(fxs_mul(td0, td0), td0)), 6_000_000),
            ) as i64,
            vel: fxs_sub(vlim, fxs_mul(fxs_mul(jmax, fxs_mul(td0, td0)), FX_HALF as int)) as i64,
            acc: fxs_neg(fxs_mul(jmax, td0)) as i64,
            jerk: jmax as i64,
        }
    } else if t < fxs_sub(total, t_j2) {
        let td0 = fxs_add(fxs_sub(t, total), t_d);
        Out {
            pos: fxs_add(
                fxs_add(
                    fxs_sub(q1, fxs_mul(fxs_mul(fxs_add(vlim, v1), t_d), FX_HALF as int)),
                    fxs_mul(vlim, td0),
                ),
                fxs_mul(
                    fxs_div(a_lim_d, 6_000_000),
                    fxs_add(
                        fxs_sub(
                            fxs_mul(3_000_000, fxs_mul(td0, td0)),
                            fxs_mul(fxs_mul(3_000_000, t_j2), td0),
                        ),
                        fxs_mul(t_j2, t_j2),
                    ),
                ),
            ) as i64,
            vel: fxs_add(
                vlim,
                fxs_mul(a_lim_d, fxs_sub(td0, fxs_mul(t_j2, FX_HALF as int))),
            ) as i64,
            acc: a_lim_d as i64,
            jerk: 0,
        }
    } else if t <= total {
        let tt = fxs_sub(total, t);
        Out {
            pos: fxs_sub(
                fxs_sub(q1, fxs_mul(v1, tt)),
                fxs_div(fxs_mul(jmax, fxs_mul(fxs_mul(tt, tt), tt)), 6_000_000),
            ) as i64,
            vel: fxs_add(v1, fxs_mul(fxs_mul(jmax, fxs_mul(tt, tt)), FX_HALF as int)) as i64,
            acc: fxs_neg(fxs_mul(jmax, tt)) as i64,
            jerk: jmin as i64,
        }
    } else {
        Out { pos: 0, vel: 0, acc: 0, jerk: 0 }
    }
}

/// Sign of the displacement, as a fixed-point unit.
pub open spec fn jerk_sign(q0: int, q1: int) -> int {
    if fxs_sub(q1, q0) < 0 {
        -(FX_ONE as int)
    } else {
        FX_ONE as int
    }
}

/// The boundary conditions mirrored so the displacement is non-negative:
/// `(q0, q1, v0, v1, limits)` after sign normalization.
pub open spec fn jerk_normalized(q0: int, q1: int, v0: int, v1: int, lim: Lim) -> (
    int,
    int,
    int,
    int,
    Lim,
) {
    let s = jerk_sign(q0, q1);
    (
        fxs_mul(q0, s),
        fxs_mul(q1, s),
        fxs_mul(v0, s),
        fxs_mul(v1, s),
        Lim {
            vel: fxs_mul(lim.vel as int, s) as i64,
            acc: fxs_mul(lim.acc as int, s) as i64,
            jerk: fxs_mul(lim.jerk as int, s) as i64,
        },
    )
}

/// The full jerk-limited evaluation: mirror the coordinates so the
/// displacement is non-negative, reject infeasible boundary conditions,
/// otherwise plan the phases and sample. The sample is reported in the
/// mirrored coordinates, as this profile's consumers expect.
pub open spec fn spec_jerk_tp(t: int, q0: int, q1: int, v0: int, v1: int, lim: Lim) -> Result<
    (int, Out),
    TrajError,
> {
    let n = jerk_normalized(q0, q1, v0, v1, lim);
    if !spec_is_feasible(n.0, n.1, n.2, n.3, n.4) {
        Err(TrajError::Infeasible)
    } else {
        let plan = spec_jerk_plan(n.0, n.1, n.2, n.3, n.4);
        Ok(
            (
                plan.0.total_time as int,
                spec_jerk_out(t, n.0, n.1, n.2, n.3, n.4.jerk as int, plan.0, plan.1),
            ),
        )
    }
}

/// The phase durations the evaluation reports on a feasible request.
pub open spec fn spec_jerk_times(q0: int, q1: int, v0: int, v1: int, lim: Lim) -> Times {
    let n = jerk_normalized(q0, q1, v0, v1, lim);
    spec_jerk_plan(n.0, n.1, n.2, n.3, n.4).0
}

/// Sample the jerk-limited profile at `t`, reporting the phase durations
/// through `times`. An infeasible displacement/velocity combination is a
/// typed error, and leaves `times` untouched.
pub fn tp(t: i64, q0: i64, q1: i64, v0: i64, v1: i64, lim: &Lim, times: &mut Times) -> (r: Result<
    (i64, Out),
    TrajError,
>)
    ensures
        ({
            let k = spec_jerk_tp(t as int, q0 as int, q1 as int, v0 as int, v1 as int, *lim);
            &&& ((r matches Ok(_)) <==> (k is Ok))
            &&& (r matches Ok(v) ==> v.0 as int == k->Ok_0.0 && v.1 == k->Ok_0.1 && *final(times)
                == spec_jerk_times(q0 as int, q1 as int, v0 as int, v1 as int, *lim))
            &&& (r matches Err(e) ==> e == TrajError::Infeasible && *final(times) == *old(times))
        }),
{
    let sign: i64 = if fx_sub(q1, q0) < 0 {
        -FX_ONE
    } else {
        FX_ONE
    };
    let nq0 = fx_mul(q0, sign);
    let nq1 = fx_mul(q1, sign);
    let nv0 = fx_mul(v0, sign);
    let nv1 = fx_mul(v1, sign);
    let nlim = Lim {
        vel: fx_mul(lim.vel, sign),
        acc: fx_mul(lim.acc, sign),
        jerk: fx_mul(lim.jerk, sign),
    };
    if !is_feasible(nq0, nq1, nv0, nv1, &nlim) {
        return Err(TrajError::Infeasible);
    }
    let (tm, vlim) = jerk_plan(nq0, nq1, nv0, nv1, &nlim);
    *times = tm;
    let jmax = nlim.jerk;
    let jmin = fx_neg(jmax);
    let a_lim_a = fx_mul(jmax, tm.t_j1);
    let a_lim_d = fx_neg(fx_mul(jmax, tm.t_j2));
    let out = if t < tm.t_j1 {
        Out {
            pos: fx_add(
                fx_add(nq0, fx_mul(nv0, t)),
                fx_div(fx_mul(jmax, fx_mul(fx_mul(t, t), t)), 6_000_000),
            ),
            vel: fx_add(nv0, fx_mul(fx_mul(jmax, fx_mul(t, t)), FX_HALF)),
            acc: fx_mul(jmax, t),
            jerk: jmax,
        }
    } else if t < fx_sub(tm.t_a, tm.t_j1) {
        Out {
            pos: fx_add(
                fx_add(nq0, fx_mul(nv0, t)),
                fx_mul(
                    fx_div(a_lim_a, 6_000_000),
                    fx_add(
                        fx_sub(
                            fx_mul(3_000_000, fx_mul(t, t)),
                            fx_mul(fx_mul(3_000_000, tm.t_j1), t),
                        ),
                        fx_mul(tm.t_j1, tm.t_j1),
                    ),
                ),
            ),
            vel: fx_add(nv0, fx_mul(a_lim_a, fx_sub(t, fx_mul(tm.t_j1, FX_HALF)))),
            acc: a_lim_a,
            jerk: 0,
        }
    } else if t < tm.t_a {
        Out {
            pos: fx_sub(
                fx_sub(
                    fx_add(nq0, fx_mul(fx_mul(fx_add(vlim, nv0), tm.t_a), FX_HALF)),
                    fx_mul(vlim, fx_sub(tm.t_a, t)),
                ),
                fx_div(
                    fx_mul(
                        jmin,
                        fx_mul(fx_mul(fx_sub(tm.t_a, t), fx_sub(tm.t_a, t)), fx_sub(tm.t_a, t)),
                    ),
                    6_000_000,
                ),
            ),
            vel: fx_add(
                vlim,
                fx_mul(fx_mul(jmin, fx_mul(fx_sub(tm.t_a, t), fx_sub(tm.t_a, t))), FX_HALF),
            ),
            acc: fx_neg(fx_mul(jmin, fx_sub(tm.t_a, t))),
            jerk: jmin,
        }
    } else if t < fx_add(tm.t_a, tm.t_v) {
        Out {
            pos: fx_add(
                fx_add(nq0, fx_mul(fx_mul(fx_add(vlim, nv0), tm.t_a), FX_HALF)),
                fx_mul(vlim, fx_sub(t, tm.t_a)),
            ),
            vel: vlim,
            acc: 0,
            jerk: 0,
        }
    } else if t < fx_add(fx_sub(tm.total_time, tm.t_d), tm.t_j2) {
        let td0 = fx_add(fx_sub(t, tm.total_time), tm.t_d);
        Out {
            pos: fx_sub(
                fx_add(
                    fx_sub(nq1, fx_mul(fx_mul(fx_add(vlim, nv1), tm.t_d), FX_HALF)),
                    fx_mul(vlim, td0),
                ),
                fx_div(fx_mul(jmax, fx_mul(fx_mul(td0, td0), td0)), 6_000_000),
            ),
            vel: fx_sub(vlim, fx_mul(fx_mul(jmax, fx_mul(td0, td0)), FX_HALF)),
            acc: fx_neg(fx_mul(jmax, td0)),
            jerk: jmax,
        }
    } else if t < fx_sub(tm.total_time, tm.t_j2) {
        let td0 = fx_add(fx_sub(t, tm.total_time), tm.t_d);
        Out {
            pos: fx_add(
                fx_add(
                    fx_sub(nq1, fx_mul(fx_mul(fx_add(vlim, nv1), tm.t_d), FX_HALF)),
                    fx_mul(vlim, td0),
                ),
                fx_mul(
                    fx_div(a_lim_d, 6_000_000),
                    fx_add(
                        fx_sub(
                            fx_mul(3_000_000, fx_mul(td0, td0)),
                            fx_mul(fx_mul(3_000_000, tm.t_j2), td0),
                        ),
                        fx_mul(tm.t_j2, tm.t_j2),
                    ),
                ),
            ),
            vel: fx_add(vlim, fx_mul(a_lim_d, fx_sub(td0, fx_mul(tm.t_j2, FX_HALF)))),
            acc: a_lim_d,
            jerk: 0,
        }
    } else if t <= tm.total_time {
        let tt = fx_sub(tm.total_time, t);
        Out {
            pos: fx_sub(
                fx_sub(nq1, fx_mul(nv1, tt)),
                fx_div(fx_mul(jmax, fx_mul(fx_mul(tt, tt), tt)), 6_000_000),
            ),
            vel: fx_add(nv1, fx_mul(fx_mul(jmax, fx_mul(tt, tt)), FX_HALF)),
            acc: fx_neg(fx_mul(jmax, tt)),
            jerk: jmin,
        }
    } else {
        Out { pos: 0, vel: 0, acc: 0, jerk: 0 }
    };
    Ok((tm.total_time, out))
}

/// Compute the phase durations and peak velocity.
fn jerk_plan(q0: i64, q1: i64, v0: i64, v1: i64, lim: &Lim) -> (r: (Times, i64))
    ensures
        r.0 == spec_jerk_plan(q0 as int, q1 as int, v0 as int, v1 as int, *lim).0,
        r.1 as int == spec_jerk_plan(q0 as int, q1 as int, v0 as int, v1 as int, *lim).1,
{
    let vmax = lim.vel;
    let amax = lim.acc;
    let jmax = lim.jerk;
    let delta = fx_sub(q1, q0);
    let a2 = fx_mul(amax, amax);
    let man = fx_mul(fx_sub(vmax, v0), jmax) < a2;
    let mdn = fx_mul(fx_sub(vmax, v1), jmax) < a2;
    let t_j1_0 = if man {
        fx_sqrt(fx_div(fx_sub(vmax, v0), jmax))
    } else {
        fx_div(amax, jmax)
    };
    let t_a_0 = if man {
        fx_mul(FX_TWO, t_j1_0)
    } else {
        fx_add(t_j1_0, fx_div(fx_sub(vmax, v0), amax))
    };
    let t_j2_0 = if mdn {
        fx_sqrt(fx_div(fx_sub(vmax, v1), jmax))
    } else {
        fx_div(amax, jmax)
    };
    let t_d_0 = if mdn {
        fx_mul(FX_TWO, t_j2_0)
    } else {
        fx_add(t_j2_0, fx_div(fx_sub(vmax, v1), amax))
    };
    let t_v_0 = fx_sub(
        fx_sub(
            fx_div(delta, vmax),
            fx_mul(fx_mul(t_a_0, FX_HALF), fx_add(FX_ONE, fx_div(v0, vmax))),
        ),
        fx_mul(fx_mul(t_d_0, FX_HALF), fx_add(FX_ONE, fx_div(v1, vmax))),
    );
    if t_v_0 < 0 {
        let t_j = fx_div(amax, jmax);
        let a4 = fx_mul(a2, a2);
        let j2 = fx_mul(jmax, jmax);
        let d2 = fx_add(
            fx_add(
                fx_div(a4, j2),
                fx_mul(FX_TWO, fx_add(fx_mul(v0, v0), fx_mul(v1, v1))),
            ),
            fx_mul(
                amax,
                fx_sub(
                    fx_mul(4_000_000, delta),
                    fx_mul(fx_div(fx_mul(FX_TWO, amax), jmax), fx_add(v0, v1)),
                ),
            ),
        );
        let sq = fx_sqrt(d2);
        let t_a = fx_mul(
            fx_mul(fx_add(fx_sub(fx_div(a2, jmax), fx_mul(FX_TWO, v0)), sq), FX_HALF),
            amax,
        );
        let t_d = fx_mul(
            fx_mul(fx_add(fx_sub(fx_div(a2, jmax), fx_mul(FX_TWO, v1)), sq), FX_HALF),
            amax,
        );
        let vlim = fx_add(v0, fx_mul(fx_mul(fx_sub(t_a, t_j), jmax), t_j));
        (
            Times {
                t_j1: t_j,
                t_j2: t_j,
                t_d,
                t_a,
                t_v: 0,
                total_time: fx_add(fx_add(t_a, 0), t_d),
            },
            vlim,
        )
    } else {
        (
            Times {
                t_j1: t_j1_0,
                t_j2: t_j2_0,
                t_d: t_d_0,
                t_a: t_a_0,
                t_v: t_v_0,
                total_time: fx_add(fx_add(t_a_0, t_v_0), t_d_0),
            },
            vmax,
        )
    }
}

} // verus!

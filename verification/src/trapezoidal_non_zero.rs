//! Single-axis trapezoidal velocity profile with non-zero boundary
//! velocities.
//!
//! A segment accelerates from an entry velocity to a peak, optionally
//! cruises, and decelerates to an exit velocity. The peak is the velocity
//! limit when the displacement is long enough to reach it, otherwise the
//! largest velocity the acceleration limit allows. These scalar formulas are
//! also the governing-axis timing source for the three-axis segment.

use vstd::prelude::*;

use crate::errors::TrajError;
use crate::fx::{
    abs_int, fx_add, fx_div, fx_mul, fx_sqrt, fx_sub, fxs_add, fxs_div, fxs_mul, fxs_sqrt, fxs_sub,
    FX_HALF, FX_ONE, FX_TWO,
};

verus! {

/// Per-axis velocity and acceleration limits.
#[derive(Clone, Copy, Debug, PartialEq, Eq, Structural)]
pub struct Lim {
    pub vel: i64,
    pub acc: i64,
}

/// Position, velocity and acceleration sampled at one time.
#[derive(Clone, Copy, Debug, PartialEq, Eq, Structural)]
pub struct Out {
    pub pos: i64,
    pub vel: i64,
    pub acc: i64,
}

impl Out {
    /// Component-wise sum, used when overlapping adjacent profiles.
    pub fn add(self, rhs: Out) -> (r: Out)
        ensures
            r.pos as int == fxs_add(self.pos as int, rhs.pos as int),
            r.vel as int == fxs_add(self.vel as int, rhs.vel as int),
            r.acc as int == fxs_add(self.acc as int, rhs.acc as int),
    {
        Out { pos: fx_add(self.pos, rhs.pos), vel: fx_add(self.vel, rhs.vel), acc: fx_add(
            self.acc,
            rhs.acc,
        ) }
    }
}

/// Phase durations of a profile; the jerk durations stay zero for a
/// trapezoidal profile.
#[derive(Clone, Copy, Debug, PartialEq, Eq, Structural)]
pub struct Times {
    pub t_j1: i64,
    pub t_j2: i64,
    pub t_d: i64,
    pub t_a: i64,
    pub t_v: i64,
    pub total_time: i64,
}

/// Half of the sum of the squared boundary velocities.
pub open spec fn half_sq_sum(v0: int, v1: int) -> int {
    fxs_mul(fxs_add(fxs_mul(v0, v0), fxs_mul(v1, v1)), FX_HALF as int)
}

/// Whether the displacement is long enough to reach the velocity limit, so
/// that the profile contains a cruise phase.
pub open spec fn cruise_reached(h: int, v0: int, v1: int, vmax: int, amax: int) -> bool {
    fxs_mul(h, amax) > fxs_sub(fxs_mul(vmax, vmax), half_sq_sum(v0, v1))
}

/// Peak velocity of the profile: the velocity limit when it is reached,
/// otherwise as fast as the acceleration limit allows over `h`.
pub open spec fn peak_vel(h: int, v0: int, v1: int, vmax: int, amax: int) -> int {
    if cruise_reached(h, v0, v1, vmax, amax) {
        vmax
    } else {
        fxs_sqrt(fxs_add(fxs_mul(h, amax), half_sq_sum(v0, v1)))
    }
}

/// Acceleration-phase duration `(vpeak - v0) / amax`.
pub open spec fn accel_time(h: int, v0: int, v1: int, vmax: int, amax: int) -> int {
    fxs_div(fxs_sub(peak_vel(h, v0, v1, vmax, amax), v0), amax)
}

/// Deceleration-phase duration `(vpeak - v1) / amax`.
pub open spec fn decel_time(h: int, v0: int, v1: int, vmax: int, amax: int) -> int {
    fxs_div(fxs_sub(peak_vel(h, v0, v1, vmax, amax), v1), amax)
}

/// Total duration: `h/v + v/(2a)(1 - v0/v)^2 + v/(2a)(1 - v1/v)^2` with a
/// cruise phase, otherwise the sum of the two ramp durations.
pub open spec fn profile_total(h: int, v0: int, v1: int, vmax: int, amax: int) -> int {
    if cruise_reached(h, v0, v1, vmax, amax) {
        let va = fxs_div(vmax, fxs_mul(FX_TWO as int, amax));
        let e0 = fxs_sub(FX_ONE as int, fxs_div(v0, vmax));
        let e1 = fxs_sub(FX_ONE as int, fxs_div(v1, vmax));
        fxs_add(
            fxs_add(fxs_div(h, vmax), fxs_mul(va, fxs_mul(e0, e0))),
            fxs_mul(va, fxs_mul(e1, e1)),
        )
    } else {
        fxs_add(
            accel_time(h, v0, v1, vmax, amax),
            decel_time(h, v0, v1, vmax, amax),
        )
    }
}

/// A profile is realizable when both ramp durations are non-negative and
/// they fit inside the total duration.
pub open spec fn profile_valid(h: int, v0: int, v1: int, vmax: int, amax: int) -> bool {
    accel_time(h, v0, v1, vmax, amax) >= 0 && decel_time(h, v0, v1, vmax, amax) >= 0
        && fxs_add(accel_time(h, v0, v1, vmax, amax), decel_time(h, v0, v1, vmax, amax))
        <= profile_total(h, v0, v1, vmax, amax)
}

/// Compute the scalar profile quantities `(t_a, t_d, total, vpeak)`.
pub(crate) fn scalar_profile(h: i64, v0: i64, v1: i64, vmax: i64, amax: i64) -> (r: (
    i64,
    i64,
    i64,
    i64,
))
    ensures
        r.0 as int == accel_time(h as int, v0 as int, v1 as int, vmax as int, amax as int),
        r.1 as int == decel_time(h as int, v0 as int, v1 as int, vmax as int, amax as int),
        r.2 as int == profile_total(h as int, v0 as int, v1 as int, vmax as int, amax as int),
        r.3 as int == peak_vel(h as int, v0 as int, v1 as int, vmax as int, amax as int),
{
    let half_sq = fx_mul(fx_add(fx_mul(v0, v0), fx_mul(v1, v1)), FX_HALF);
    let reached = fx_mul(h, amax) > fx_sub(fx_mul(vmax, vmax), half_sq);
    let vlim = if reached {
        vmax
    } else {
        fx_sqrt(fx_add(fx_mul(h, amax), half_sq))
    };
    let t_a = fx_div(fx_sub(vlim, v0), amax);
    let t_d = fx_div(fx_sub(vlim, v1), amax);
    let total = if reached {
        let va = fx_div(vmax, fx_mul(FX_TWO, amax));
        let e0 = fx_sub(FX_ONE, fx_div(v0, vmax));
        let e1 = fx_sub(FX_ONE, fx_div(v1, vmax));
        fx_add(fx_add(fx_div(h, vmax), fx_mul(va, fx_mul(e0, e0))), fx_mul(va, fx_mul(e1, e1)))
    } else {
        fx_add(t_a, t_d)
    };
    (t_a, t_d, total, vlim)
}

/// Sample of the acceleration phase at `dt` past the segment start.
pub open spec fn accel_out(q0: int, v0: int, vlim: int, t_a: int, dt: int) -> Out {
    Out {
        pos: fxs_add(
            fxs_add(q0, fxs_mul(v0, dt)),
            fxs_mul(fxs_div(fxs_sub(vlim, v0), fxs_mul(FX_TWO as int, t_a)), fxs_mul(dt, dt)),
        ) as i64,
        vel: fxs_add(v0, fxs_mul(fxs_div(fxs_sub(vlim, v0), t_a), dt)) as i64,
        acc: fxs_div(fxs_sub(vlim, v0), t_a) as i64,
    }
}

/// Sample of the cruise phase at `dt` past the segment start.
pub open spec fn cruise_out(q0: int, v0: int, vlim: int, t_a: int, dt: int) -> Out {
    Out {
        pos: fxs_add(
            fxs_add(q0, fxs_mul(fxs_mul(v0, t_a), FX_HALF as int)),
            fxs_mul(vlim, fxs_sub(dt, fxs_mul(t_a, FX_HALF as int))),
        ) as i64,
        vel: vlim as i64,
        acc: 0,
    }
}

/// Sample of the deceleration phase at `tr` before the segment end.
pub open spec fn decel_out(q1: int, v1: int, vlim: int, t_d: int, tr: int) -> Out {
    Out {
        pos: fxs_sub(
            fxs_sub(q1, fxs_mul(v1, tr)),
            fxs_mul(fxs_div(fxs_sub(vlim, v1), fxs_mul(FX_TWO as int, t_d)), fxs_mul(tr, tr)),
        ) as i64,
        vel: fxs_add(v1, fxs_mul(fxs_div(fxs_sub(vlim, v1), t_d), tr)) as i64,
        acc: fxs_sub(0, fxs_div(fxs_sub(vlim, v1), t_d)) as i64,
    }
}

/// Compute an acceleration-phase sample.
pub(crate) fn accel_sample(q0: i64, v0: i64, vlim: i64, t_a: i64, dt: i64) -> (r: Out)
    ensures
        r == accel_out(q0 as int, v0 as int, vlim as int, t_a as int, dt as int),
{
    Out {
        pos: fx_add(
            fx_add(q0, fx_mul(v0, dt)),
            fx_mul(fx_div(fx_sub(vlim, v0), fx_mul(FX_TWO, t_a)), fx_mul(dt, dt)),
        ),
        vel: fx_add(v0, fx_mul(fx_div(fx_sub(vlim, v0), t_a), dt)),
        acc: fx_div(fx_sub(vlim, v0), t_a),
    }
}

/// Compute a cruise-phase sample.
pub(crate) fn cruise_sample(q0: i64, v0: i64, vlim: i64, t_a: i64, dt: i64) -> (r: Out)
    ensures
        r == cruise_out(q0 as int, v0 as int, vlim as int, t_a as int, dt as int),
{
    Out {
        pos: fx_add(
            fx_add(q0, fx_mul(fx_mul(v0, t_a), FX_HALF)),
            fx_mul(vlim, fx_sub(dt, fx_mul(t_a, FX_HALF))),
        ),
        vel: vlim,
        acc: 0,
    }
}

/// A velocity ramp never leaves the interval spanned by its endpoints:
/// for any time `w` inside the ramp duration, the interpolated velocity
/// `base + ((peak - base)/dur) w` lies between `base` and `peak`. Rounding
/// toward zero can only shrink the increment, never overshoot it.
pub proof fn lemma_ramp_bound(base: int, peak: int, dur: int, w: int)
    requires
        0 <= w <= dur,
        abs_int(base) <= 4_000_000_000_000,
        abs_int(peak) <= 4_000_000_000_000,
    ensures
        ({
            let v = fxs_add(base, fxs_mul(fxs_div(fxs_sub(peak, base), dur), w));
            &&& base <= peak ==> base <= v <= peak
            &&& base > peak ==> peak <= v <= base
        }),
{
    let x = fxs_sub(peak, base);
    assert(x == peak - base);
    if w == 0 {
        crate::fx::lemma_fxs_mul_zero(fxs_div(x, dur));
        return ;
    }
    let s = FX_ONE as int;
    let m = abs_int(x);
    let n1 = x * s;
    assert(abs_int(n1) == m * s) by (nonlinear_arith)
        requires
            s == 1_000_000,
            m == abs_int(x),
            n1 == x * s,
    ;
    let dq = (m * s) / dur;
    vstd::arithmetic::div_mod::lemma_div_pos_is_pos(m * s, dur);
    vstd::arithmetic::div_mod::lemma_remainder_lower(m * s, dur);
    assert(dq * dur <= m * s);
    vstd::arithmetic::mul::lemma_mul_inequality(w, dur, dq);
    vstd::arithmetic::mul::lemma_mul_is_commutative(dq, w);
    vstd::arithmetic::mul::lemma_mul_is_commutative(dq, dur);
    assert(dq * w <= m * s);
    vstd::arithmetic::mul::lemma_mul_nonnegative(dq, w);
    vstd::arithmetic::div_mod::lemma_div_is_ordered(dq * w, m * s, s);
    vstd::arithmetic::div_mod::lemma_div_multiples_vanish(m, s);
    let iq = (dq * w) / s;
    vstd::arithmetic::div_mod::lemma_div_pos_is_pos(dq * w, s);
    assert(0 <= iq <= m);
    let d_val = fxs_div(x, dur);
    if x >= 0 {
        assert(d_val == dq);
        assert(abs_int(d_val * w) == dq * w) by (nonlinear_arith)
            requires
                d_val == dq,
                dq >= 0,
                w >= 0,
        ;
        assert(fxs_mul(d_val, w) == iq);
    } else {
        assert(d_val == -dq);
        assert(abs_int(d_val * w) == dq * w) by (nonlinear_arith)
            requires
                d_val == -dq,
                dq >= 0,
                w >= 0,
        ;
        assert(d_val * w <= 0) by (nonlinear_arith)
            requires
                d_val <= 0,
                w >= 0,
        ;
        assert(fxs_mul(d_val, w) == -iq);
    }
}

/// The governing-axis peak velocity never exceeds the axis velocity
/// limit: with a cruise phase it equals the limit, without one it is the
/// square root of a quantity that the no-cruise test bounds by the squared
/// limit.
pub proof fn lemma_peak_within_limit(h: int, v0: int, v1: int, vmax: int, amax: int)
    requires
        0 <= vmax <= 3_000_000_000_000,
    ensures
        0 <= peak_vel(h, v0, v1, vmax, amax) <= vmax,
{
    let s = FX_ONE as int;
    if !cruise_reached(h, v0, v1, vmax, amax) {
        let hs = half_sq_sum(v0, v1);
        assert(v0 * v0 >= 0) by (nonlinear_arith);
        assert(v1 * v1 >= 0) by (nonlinear_arith);
        assert(fxs_mul(v0, v0) >= 0) by {
            vstd::arithmetic::div_mod::lemma_div_pos_is_pos(abs_int(v0 * v0), s);
        }
        assert(fxs_mul(v1, v1) >= 0) by {
            vstd::arithmetic::div_mod::lemma_div_pos_is_pos(abs_int(v1 * v1), s);
        }
        assert(hs >= 0) by {
            vstd::arithmetic::div_mod::lemma_div_pos_is_pos(
                abs_int(fxs_add(fxs_mul(v0, v0), fxs_mul(v1, v1)) * (FX_HALF as int)),
                s,
            );
        }
        let msq = fxs_mul(vmax, vmax);
        assert(vmax * vmax <= 3_000_000_000_000int * 3_000_000_000_000int) by (nonlinear_arith)
            requires
                0 <= vmax <= 3_000_000_000_000,
        ;
        assert(vmax * vmax >= 0) by (nonlinear_arith);
        assert(msq == (vmax * vmax) / s);
        let arg = fxs_add(fxs_mul(h, amax), hs);
        assert(fxs_mul(h, amax) <= fxs_sub(msq, hs));
        if arg > 0 {
            let r = crate::fx::sqrt_floor((arg * s) as nat);
            crate::fx::lemma_sqrt_floor_bounds((arg * s) as nat);
            assert(arg <= msq);
            vstd::arithmetic::mul::lemma_mul_inequality(arg, msq, s);
            vstd::arithmetic::div_mod::lemma_remainder_lower(vmax * vmax, s);
            assert(msq * s <= vmax * vmax);
            assert(arg * s <= vmax * vmax);
            assert(r <= vmax) by (nonlinear_arith)
                requires
                    r * r <= arg * s,
                    arg * s <= vmax * vmax,
                    r >= 0,
                    vmax >= 0,
            ;
        }
    }
}

/// Sign of the displacement from `q0` to `q1`, as a fixed-point unit: the
/// profile formulas assume a non-negative displacement, so a segment is
/// computed on the mirrored coordinates and its samples are mirrored back.
pub open spec fn seg_sign(q0: int, q1: int) -> int {
    if fxs_sub(q1, q0) < 0 {
        -(FX_ONE as int)
    } else {
        FX_ONE as int
    }
}

/// A sample mirrored by the displacement sign.
pub open spec fn out_signed(o: Out, s: int) -> Out {
    Out {
        pos: fxs_mul(o.pos as int, s) as i64,
        vel: fxs_mul(o.vel as int, s) as i64,
        acc: fxs_mul(o.acc as int, s) as i64,
    }
}

/// One single-axis trapezoidal segment, starting at time 0.
#[derive(Clone, Copy, Debug, PartialEq, Eq, Structural)]
pub struct Segment {
    /// Start time of this segment.
    pub start_t: i64,
    /// Duration of this segment.
    pub t: i64,
    /// Initial position, sign-normalized.
    pub q0: i64,
    /// Final position, sign-normalized.
    pub q1: i64,
    /// Initial velocity, sign-normalized.
    pub v0: i64,
    /// Final velocity, sign-normalized.
    pub v1: i64,
    /// Total duration.
    pub total_time: i64,
    /// Acceleration-phase duration.
    pub t_a: i64,
    /// Deceleration-phase duration.
    pub t_d: i64,
    /// Peak velocity reached, sign-normalized.
    pub vlim: i64,
    /// Sign of the displacement, a fixed-point unit.
    pub sign: i64,
}

/// Whether a single-axis segment can be built: positive limits and a
/// realizable profile on the sign-normalized coordinates.
pub open spec fn scalar_seg_ok(q0: int, q1: int, v0: int, v1: int, vel: int, acc: int) -> bool {
    let s = seg_sign(q0, q1);
    let h = fxs_sub(fxs_mul(q1, s), fxs_mul(q0, s));
    vel > 0 && acc > 0 && profile_valid(h, fxs_mul(v0, s), fxs_mul(v1, s), vel, acc)
}

/// The segment value built from raw boundary conditions.
pub open spec fn spec_scalar_new(q0: int, q1: int, v0: int, v1: int, vel: int, acc: int) -> Segment {
    let s = seg_sign(q0, q1);
    let nq0 = fxs_mul(q0, s);
    let nq1 = fxs_mul(q1, s);
    let nv0 = fxs_mul(v0, s);
    let nv1 = fxs_mul(v1, s);
    let h = fxs_sub(nq1, nq0);
    Segment {
        start_t: 0,
        t: profile_total(h, nv0, nv1, vel, acc) as i64,
        q0: nq0 as i64,
        q1: nq1 as i64,
        v0: nv0 as i64,
        v1: nv1 as i64,
        total_time: profile_total(h, nv0, nv1, vel, acc) as i64,
        t_a: accel_time(h, nv0, nv1, vel, acc) as i64,
        t_d: decel_time(h, nv0, nv1, vel, acc) as i64,
        vlim: peak_vel(h, nv0, nv1, vel, acc) as i64,
        sign: s as i64,
    }
}

/// The sample of a single-axis segment at time `t`: the acceleration,
/// cruise or deceleration formula by phase, mirrored back by the sign;
/// nothing past the end of the segment.
pub open spec fn spec_scalar_tp(seg: Segment, t: int) -> Option<Out> {
    let t1 = fxs_add(seg.start_t as int, seg.total_time as int);
    let dt = fxs_sub(t, seg.start_t as int);
    if dt < 0 {
        None
    } else if dt < seg.t_a as int {
        Some(
            out_signed(
                accel_out(seg.q0 as int, seg.v0 as int, seg.vlim as int, seg.t_a as int, dt),
                seg.sign as int,
            ),
        )
    } else if dt < fxs_sub(seg.total_time as int, seg.t_d as int) {
        Some(
            out_signed(
                cruise_out(seg.q0 as int, seg.v0 as int, seg.vlim as int, seg.t_a as int, dt),
                seg.sign as int,
            ),
        )
    } else if dt <= seg.total_time as int {
        Some(
            out_signed(
                decel_out(
                    seg.q1 as int,
                    seg.v1 as int,
                    seg.vlim as int,
                    seg.t_d as int,
                    fxs_sub(t1, t),
                ),
                seg.sign as int,
            ),
        )
    } else {
        None
    }
}

impl Segment {
    /// Build the fastest profile from `q0` to `q1` with boundary velocities
    /// `v0` and `v1` under the limits.
    ///
    /// Fails with `InvalidLimits` on a non-positive limit and with
    /// `Infeasible` when no trapezoid fits the boundary conditions.
    pub fn new(q0: i64, q1: i64, v0: i64, v1: i64, lim: &Lim) -> (r: Result<Segment, TrajError>)
        ensures
            r matches Ok(s) ==> s == spec_scalar_new(
                q0 as int,
                q1 as int,
                v0 as int,
                v1 as int,
                lim.vel as int,
                lim.acc as int,
            ),
            (r matches Ok(s)) <==> scalar_seg_ok(
                q0 as int,
                q1 as int,
                v0 as int,
                v1 as int,
                lim.vel as int,
                lim.acc as int,
            ),
            r matches Err(e) ==> e == (if lim.vel <= 0 || lim.acc <= 0 {
                TrajError::InvalidLimits
            } else {
                TrajError::Infeasible
            }),
    {
        if lim.vel <= 0 || lim.acc <= 0 {
            return Err(TrajError::InvalidLimits);
        }
        let sign: i64 = if fx_sub(q1, q0) < 0 {
            -FX_ONE
        } else {
            FX_ONE
        };
        let nq0 = fx_mul(q0, sign);
        let nq1 = fx_mul(q1, sign);
        let nv0 = fx_mul(v0, sign);
        let nv1 = fx_mul(v1, sign);
        let h = fx_sub(nq1, nq0);
        let (t_a, t_d, total, vlim) = scalar_profile(h, nv0, nv1, lim.vel, lim.acc);
        if t_a < 0 || t_d < 0 || fx_add(t_a, t_d) > total {
            return Err(TrajError::Infeasible);
        }
        Ok(
            Segment {
                start_t: 0,
                t: total,
                q0: nq0,
                q1: nq1,
                v0: nv0,
                v1: nv1,
                total_time: total,
                t_a,
                t_d,
                vlim,
                sign,
            },
        )
    }

    /// Final position of the segment, in sign-normalized coordinates.
    pub fn final_pos(&self) -> (r: i64)
        ensures
            r == self.q1,
    {
        self.q1
    }

    /// Whether the given time falls within this segment's span.
    pub fn contains(&self, t: i64) -> (r: bool)
        ensures
            r == (t >= self.start_t && (t as int) < fxs_add(self.start_t as int, self.total_time as int)),
    {
        t >= self.start_t && t < fx_add(self.start_t, self.total_time)
    }

    /// Sample position, velocity and acceleration at time `t`.
    pub fn tp(&self, t: i64) -> (r: Option<Out>)
        ensures
            r == spec_scalar_tp(*self, t as int),
    {
        let t1 = fx_add(self.start_t, self.total_time);
        let dt = fx_sub(t, self.start_t);
        let raw = if dt < 0 {
            None
        } else if dt < self.t_a {
            Some(accel_sample(self.q0, self.v0, self.vlim, self.t_a, dt))
        } else if dt < fx_sub(self.total_time, self.t_d) {
            Some(cruise_sample(self.q0, self.v0, self.vlim, self.t_a, dt))
        } else if dt <= self.total_time {
            Some(decel_sample(self.q1, self.v1, self.vlim, self.t_d, fx_sub(t1, t)))
        } else {
            None
        };
        match raw {
            Some(o) => Some(
                Out {
                    pos: fx_mul(o.pos, self.sign),
                    vel: fx_mul(o.vel, self.sign),
                    acc: fx_mul(o.acc, self.sign),
                },
            ),
            None => None,
        }
    }

    /// The phase durations of this segment.
    pub fn times(&self) -> (r: Times)
        ensures
            r == (Times {
                t_j1: 0i64,
                t_j2: 0i64,
                t_d: self.t_d,
                t_a: self.t_a,
                t_v: 0i64,
                total_time: self.total_time,
            }),
    {
        Times {
            t_j1: 0,
            t_j2: 0,
            t_d: self.t_d,
            t_a: self.t_a,
            t_v: 0,
            total_time: self.total_time,
        }
    }
}

/// Compute a deceleration-phase sample.
pub(crate) fn decel_sample(q1: i64, v1: i64, vlim: i64, t_d: i64, tr: i64) -> (r: Out)
    ensures
        r == decel_out(q1 as int, v1 as int, vlim as int, t_d as int, tr as int),
{
    Out {
        pos: fx_sub(
            fx_sub(q1, fx_mul(v1, tr)),
            fx_mul(fx_div(fx_sub(vlim, v1), fx_mul(FX_TWO, t_d)), fx_mul(tr, tr)),
        ),
        vel: fx_add(v1, fx_mul(fx_div(fx_sub(vlim, v1), t_d), tr)),
        acc: fx_sub(0, fx_div(fx_sub(vlim, v1), t_d)),
    }
}

} // verus!

//! Three-axis trapezoidal segment with synchronized axes.
//!
//! The axis with the largest absolute displacement (ties broken by lowest
//! index) governs the timing: its scalar profile fixes the acceleration,
//! cruise and deceleration windows, and every axis is then given the peak
//! velocity that completes its own displacement inside the same window, so
//! motion on all axes starts and stops together.

use vstd::prelude::*;

use crate::errors::TrajError;
use crate::fx::{fx_abs, fx_div, fx_mul, fx_sub, fxs_abs, fxs_div, fxs_mul, fxs_sub, FX_ONE};
use crate::trapezoidal_non_zero::{
    accel_out, accel_sample, accel_time, cruise_out, cruise_sample, decel_out, decel_sample,
    decel_time, peak_vel, profile_total, profile_valid, scalar_profile,
};
use crate::vec3::{cs_minus, Coord3};

verus! {

/// Per-axis velocity and acceleration limits.
#[derive(Clone, Copy, Debug, PartialEq, Eq, Structural)]
pub struct Lim {
    pub vel: Coord3,
    pub acc: Coord3,
}

/// Position, velocity and acceleration vectors sampled at one time.
#[derive(Clone, Copy, Debug, PartialEq, Eq, Structural)]
pub struct Out {
    pub pos: Coord3,
    pub vel: Coord3,
    pub acc: Coord3,
}

/// The kinematic regime a segment is in at a given time.
#[derive(Clone, Copy, Debug, PartialEq, Eq, Structural)]
pub enum Phase {
    Accel,
    Cruise,
    Decel,
}

/// Component `i` of a vector (0, 1 or 2).
pub open spec fn axis_of(c: Coord3, i: int) -> int {
    if i == 0 {
        c.x as int
    } else if i == 1 {
        c.y as int
    } else {
        c.z as int
    }
}

/// The governing axis: the one with the largest absolute displacement
/// component, ties broken by the lowest index.
pub open spec fn gov_axis(h: Coord3) -> int {
    let ax = fxs_abs(h.x as int);
    let ay = fxs_abs(h.y as int);
    let az = fxs_abs(h.z as int);
    if az > (if ay > ax {
        ay
    } else {
        ax
    }) {
        2
    } else if ay > ax {
        1
    } else {
        0
    }
}

/// Sign normalization factor for the governing-axis displacement: the
/// scalar profile formulas assume a non-negative displacement.
pub open spec fn gov_sign(hg: int) -> int {
    if hg < 0 {
        -(FX_ONE as int)
    } else {
        FX_ONE as int
    }
}

/// A synchronized multi-axis trapezoidal segment.
#[derive(Clone, Copy, Debug, PartialEq, Eq, Structural)]
pub struct Segment {
    /// Start time of this segment.
    pub start_t: i64,
    /// Initial position.
    pub q0: Coord3,
    /// Final position.
    pub q1: Coord3,
    /// Initial velocity.
    pub v0: Coord3,
    /// Final velocity.
    pub v1: Coord3,
    /// Total duration.
    pub total_time: i64,
    /// Acceleration-phase duration, shared by all axes.
    pub t_a: i64,
    /// Deceleration-phase duration, shared by all axes.
    pub t_d: i64,
    /// Peak velocity of each axis under the shared timing.
    pub vlim: Coord3,
}

/// Governing-axis scalar displacement, sign-normalized.
pub open spec fn gov_h(q0: Coord3, q1: Coord3) -> int {
    let h = cs_minus(q1, q0);
    fxs_mul(axis_of(h, gov_axis(h)), gov_sign(axis_of(h, gov_axis(h))))
}

/// Governing-axis entry velocity, sign-normalized.
pub open spec fn gov_v0(q0: Coord3, q1: Coord3, v0: Coord3) -> int {
    let h = cs_minus(q1, q0);
    fxs_mul(axis_of(v0, gov_axis(h)), gov_sign(axis_of(h, gov_axis(h))))
}

/// Governing-axis exit velocity, sign-normalized.
pub open spec fn gov_v1(q0: Coord3, q1: Coord3, v1: Coord3) -> int {
    let h = cs_minus(q1, q0);
    fxs_mul(axis_of(v1, gov_axis(h)), gov_sign(axis_of(h, gov_axis(h))))
}

/// Whether all six limit components are strictly positive.
pub open spec fn limits_ok(lim: Lim) -> bool {
    lim.vel.x > 0 && lim.vel.y > 0 && lim.vel.z > 0 && lim.acc.x > 0 && lim.acc.y > 0
        && lim.acc.z > 0
}

/// Whether a synchronized segment can be built from these boundary
/// conditions: positive limits and a realizable governing-axis profile.
pub open spec fn seg3_ok(q0: Coord3, q1: Coord3, v0: Coord3, v1: Coord3, lim: Lim) -> bool {
    let h = cs_minus(q1, q0);
    let g = gov_axis(h);
    limits_ok(lim) && profile_valid(
        gov_h(q0, q1),
        gov_v0(q0, q1, v0),
        gov_v1(q0, q1, v1),
        axis_of(lim.vel, g),
        axis_of(lim.acc, g),
    )
}

/// The peak velocity the axis with displacement `hi` needs to finish inside
/// the shared window: `hi / (total - t_a)`.
pub open spec fn axis_peak(hi: int, total: int, t_a: int) -> int {
    fxs_div(hi, fxs_sub(total, t_a))
}

/// The segment value built from the boundary conditions: governing-axis
/// timing applied to every axis.
pub open spec fn spec_seg3_new(
    q0: Coord3,
    q1: Coord3,
    v0: Coord3,
    v1: Coord3,
    start_t: int,
    lim: Lim,
) -> Segment {
    let h = cs_minus(q1, q0);
    let g = gov_axis(h);
    let nh = gov_h(q0, q1);
    let nv0 = gov_v0(q0, q1, v0);
    let nv1 = gov_v1(q0, q1, v1);
    let vmax = axis_of(lim.vel, g);
    let amax = axis_of(lim.acc, g);
    let t_a = accel_time(nh, nv0, nv1, vmax, amax);
    let total = profile_total(nh, nv0, nv1, vmax, amax);
    Segment {
        start_t: start_t as i64,
        q0,
        q1,
        v0,
        v1,
        total_time: total as i64,
        t_a: t_a as i64,
        t_d: decel_time(nh, nv0, nv1, vmax, amax) as i64,
        vlim: Coord3 {
            x: axis_peak(h.x as int, total, t_a) as i64,
            y: axis_peak(h.y as int, total, t_a) as i64,
            z: axis_peak(h.z as int, total, t_a) as i64,
        },
    }
}

/// The acceleration-phase sample on all three axes.
pub open spec fn accel_out3(seg: Segment, dt: int) -> Out {
    let sx = accel_out(seg.q0.x as int, seg.v0.x as int, seg.vlim.x as int, seg.t_a as int, dt);
    let sy = accel_out(seg.q0.y as int, seg.v0.y as int, seg.vlim.y as int, seg.t_a as int, dt);
    let sz = accel_out(seg.q0.z as int, seg.v0.z as int, seg.vlim.z as int, seg.t_a as int, dt);
    Out {
        pos: Coord3 { x: sx.pos, y: sy.pos, z: sz.pos },
        vel: Coord3 { x: sx.vel, y: sy.vel, z: sz.vel },
        acc: Coord3 { x: sx.acc, y: sy.acc, z: sz.acc },
    }
}

/// The cruise-phase sample on all three axes.
pub open spec fn cruise_out3(seg: Segment, dt: int) -> Out {
    let sx = cruise_out(seg.q0.x as int, seg.v0.x as int, seg.vlim.x as int, seg.t_a as int, dt);
    let sy = cruise_out(seg.q0.y as int, seg.v0.y as int, seg.vlim.y as int, seg.t_a as int, dt);
    let sz = cruise_out(seg.q0.z as int, seg.v0.z as int, seg.vlim.z as int, seg.t_a as int, dt);
    Out {
        pos: Coord3 { x: sx.pos, y: sy.pos, z: sz.pos },
        vel: seg.vlim,
        acc: Coord3 { x: 0, y: 0, z: 0 },
    }
}

/// The deceleration-phase sample on all three axes, `tr` before the end.
pub open spec fn decel_out3(seg: Segment, tr: int) -> Out {
    let sx = decel_out(seg.q1.x as int, seg.v1.x as int, seg.vlim.x as int, seg.t_d as int, tr);
    let sy = decel_out(seg.q1.y as int, seg.v1.y as int, seg.vlim.y as int, seg.t_d as int, tr);
    let sz = decel_out(seg.q1.z as int, seg.v1.z as int, seg.vlim.z as int, seg.t_d as int, tr);
    Out {
        pos: Coord3 { x: sx.pos, y: sy.pos, z: sz.pos },
        vel: Coord3 { x: sx.vel, y: sy.vel, z: sz.vel },
        acc: Coord3 { x: sx.acc, y: sy.acc, z: sz.acc },
    }
}

/// The sample of a synchronized segment at time `t`: the same phase formula
/// on each axis, under the shared timing; nothing outside the segment's own
/// time window.
pub open spec fn spec_seg3_tp(seg: Segment, t: int) -> Option<(Out, Phase)> {
    let t1 = crate::fx::fxs_add(seg.start_t as int, seg.total_time as int);
    let dt = fxs_sub(t, seg.start_t as int);
    if dt < 0 {
        None
    } else if dt < seg.t_a as int {
        Some((accel_out3(seg, dt), Phase::Accel))
    } else if dt < fxs_sub(seg.total_time as int, seg.t_d as int) {
        Some((cruise_out3(seg, dt), Phase::Cruise))
    } else if dt <= seg.total_time as int {
        Some((decel_out3(seg, fxs_sub(t1, t)), Phase::Decel))
    } else {
        None
    }
}

/// Boundary continuity at the segment start: when the acceleration phase
/// is non-empty, sampling a freshly built segment at its start time yields
/// exactly the entry position and entry velocity on every axis.
pub proof fn lemma_entry_sample(
    q0: Coord3,
    q1: Coord3,
    v0: Coord3,
    v1: Coord3,
    start_t: int,
    lim: Lim,
)
    requires
        seg3_ok(q0, q1, v0, v1, lim),
        -(i64::MAX as int) <= start_t <= i64::MAX as int,
        spec_seg3_new(q0, q1, v0, v1, start_t, lim).t_a > 0,
    ensures
        ({
            let s = spec_seg3_new(q0, q1, v0, v1, start_t, lim);
            &&& spec_seg3_tp(s, start_t) matches Some(op)
            &&& spec_seg3_tp(s, start_t)->Some_0.0.pos == q0
            &&& spec_seg3_tp(s, start_t)->Some_0.0.vel == v0
            &&& spec_seg3_tp(s, start_t)->Some_0.1 == Phase::Accel
        }),
{
    let s = spec_seg3_new(q0, q1, v0, v1, start_t, lim);
    assert(fxs_sub(start_t, s.start_t as int) == 0);
    crate::fx::lemma_fxs_mul_zero(s.v0.x as int);
    crate::fx::lemma_fxs_mul_zero(s.v0.y as int);
    crate::fx::lemma_fxs_mul_zero(s.v0.z as int);
    crate::fx::lemma_fxs_mul_zero(
        crate::fx::fxs_div(
            fxs_sub(s.vlim.x as int, s.v0.x as int),
            fxs_mul(2_000_000, s.t_a as int),
        ),
    );
    crate::fx::lemma_fxs_mul_zero(
        crate::fx::fxs_div(
            fxs_sub(s.vlim.y as int, s.v0.y as int),
            fxs_mul(2_000_000, s.t_a as int),
        ),
    );
    crate::fx::lemma_fxs_mul_zero(
        crate::fx::fxs_div(
            fxs_sub(s.vlim.z as int, s.v0.z as int),
            fxs_mul(2_000_000, s.t_a as int),
        ),
    );
    crate::fx::lemma_fxs_mul_zero(
        crate::fx::fxs_div(fxs_sub(s.vlim.x as int, s.v0.x as int), s.t_a as int),
    );
    crate::fx::lemma_fxs_mul_zero(
        crate::fx::fxs_div(fxs_sub(s.vlim.y as int, s.v0.y as int), s.t_a as int),
    );
    crate::fx::lemma_fxs_mul_zero(
        crate::fx::fxs_div(fxs_sub(s.vlim.z as int, s.v0.z as int), s.t_a as int),
    );
    assert(accel_out3(s, 0).pos == s.q0);
    assert(accel_out3(s, 0).vel == s.v0);
}

/// Boundary continuity at the segment end: sampling a freshly built
/// segment at its end time yields exactly the exit position and exit
/// velocity on every axis, in the deceleration phase.
pub proof fn lemma_exit_sample(
    q0: Coord3,
    q1: Coord3,
    v0: Coord3,
    v1: Coord3,
    start_t: int,
    lim: Lim,
)
    requires
        seg3_ok(q0, q1, v0, v1, lim),
        ({
            let s = spec_seg3_new(q0, q1, v0, v1, start_t, lim);
            &&& -(i64::MAX as int) <= start_t <= i64::MAX as int
            &&& start_t + s.total_time <= i64::MAX as int
        }),
    ensures
        ({
            let s = spec_seg3_new(q0, q1, v0, v1, start_t, lim);
            let t_end = start_t + s.total_time;
            &&& spec_seg3_tp(s, t_end) matches Some(op)
            &&& spec_seg3_tp(s, t_end)->Some_0.0.pos == q1
            &&& spec_seg3_tp(s, t_end)->Some_0.0.vel == v1
            &&& spec_seg3_tp(s, t_end)->Some_0.1 == Phase::Decel
        }),
{
    let s = spec_seg3_new(q0, q1, v0, v1, start_t, lim);
    let t_end = start_t + s.total_time;
    let dt = fxs_sub(t_end, s.start_t as int);
    assert(dt == s.total_time as int);
    assert(s.t_a as int <= s.total_time as int);
    assert(fxs_sub(s.total_time as int, s.t_d as int) <= s.total_time as int);
    let t1 = crate::fx::fxs_add(s.start_t as int, s.total_time as int);
    assert(t1 == t_end);
    assert(fxs_sub(t1, t_end) == 0);
    crate::fx::lemma_fxs_mul_zero(s.v1.x as int);
    crate::fx::lemma_fxs_mul_zero(s.v1.y as int);
    crate::fx::lemma_fxs_mul_zero(s.v1.z as int);
    crate::fx::lemma_fxs_mul_zero(
        crate::fx::fxs_div(
            fxs_sub(s.vlim.x as int, s.v1.x as int),
            fxs_mul(2_000_000, s.t_d as int),
        ),
    );
    crate::fx::lemma_fxs_mul_zero(
        crate::fx::fxs_div(
            fxs_sub(s.vlim.y as int, s.v1.y as int),
            fxs_mul(2_000_000, s.t_d as int),
        ),
    );
    crate::fx::lemma_fxs_mul_zero(
        crate::fx::fxs_div(
            fxs_sub(s.vlim.z as int, s.v1.z as int),
            fxs_mul(2_000_000, s.t_d as int),
        ),
    );
    crate::fx::lemma_fxs_mul_zero(
        crate::fx::fxs_div(fxs_sub(s.vlim.x as int, s.v1.x as int), s.t_d as int),
    );
    crate::fx::lemma_fxs_mul_zero(
        crate::fx::fxs_div(fxs_sub(s.vlim.y as int, s.v1.y as int), s.t_d as int),
    );
    crate::fx::lemma_fxs_mul_zero(
        crate::fx::fxs_div(fxs_sub(s.vlim.z as int, s.v1.z as int), s.t_d as int),
    );
    assert(decel_out3(s, 0).pos == s.q1);
    assert(decel_out3(s, 0).vel == s.v1);
}

/// Whether every component's magnitude stays within `b`.
pub open spec fn vec_bounded(c: Coord3, b: int) -> bool {
    crate::fx::abs_int(c.x as int) <= b && crate::fx::abs_int(c.y as int) <= b && crate::fx::abs_int(
        c.z as int,
    ) <= b
}

/// Whether `v` lies in the closed interval spanned by `a` and `b`.
pub open spec fn within(a: int, b: int, v: int) -> bool {
    if a <= b {
        a <= v <= b
    } else {
        b <= v <= a
    }
}

/// The sampled velocity never leaves the segment's own envelope: on every
/// axis it stays between the entry velocity and the axis peak while
/// accelerating, equals the axis peak while cruising, and stays between
/// the exit velocity and the axis peak while decelerating. Rounding toward
/// zero never overshoots a ramp.
pub proof fn lemma_vel_envelope(seg: Segment, t: int)
    requires
        seg.t_a >= 0,
        seg.t_d >= 0,
        seg.start_t as int <= t <= seg.start_t + seg.total_time,
        seg.start_t + seg.total_time <= i64::MAX as int,
        vec_bounded(seg.v0, 4_000_000_000_000),
        vec_bounded(seg.v1, 4_000_000_000_000),
        vec_bounded(seg.vlim, 4_000_000_000_000),
    ensures
        ({
            let r = spec_seg3_tp(seg, t);
            &&& r matches Some(op)
            &&& (r->Some_0.1 is Accel ==> {
                &&& within(seg.v0.x as int, seg.vlim.x as int, r->Some_0.0.vel.x as int)
                &&& within(seg.v0.y as int, seg.vlim.y as int, r->Some_0.0.vel.y as int)
                &&& within(seg.v0.z as int, seg.vlim.z as int, r->Some_0.0.vel.z as int)
            })
            &&& (r->Some_0.1 is Cruise ==> r->Some_0.0.vel == seg.vlim)
            &&& (r->Some_0.1 is Decel ==> {
                &&& within(seg.v1.x as int, seg.vlim.x as int, r->Some_0.0.vel.x as int)
                &&& within(seg.v1.y as int, seg.vlim.y as int, r->Some_0.0.vel.y as int)
                &&& within(seg.v1.z as int, seg.vlim.z as int, r->Some_0.0.vel.z as int)
            })
        }),
{
    let dt = fxs_sub(t, seg.start_t as int);
    assert(dt == t - seg.start_t);
    let t1 = crate::fx::fxs_add(seg.start_t as int, seg.total_time as int);
    assert(t1 == seg.start_t + seg.total_time);
    if dt < seg.t_a as int {
        crate::trapezoidal_non_zero::lemma_ramp_bound(
            seg.v0.x as int,
            seg.vlim.x as int,
            seg.t_a as int,
            dt,
        );
        crate::trapezoidal_non_zero::lemma_ramp_bound(
            seg.v0.y as int,
            seg.vlim.y as int,
            seg.t_a as int,
            dt,
        );
        crate::trapezoidal_non_zero::lemma_ramp_bound(
            seg.v0.z as int,
            seg.vlim.z as int,
            seg.t_a as int,
            dt,
        );
    } else if dt < fxs_sub(seg.total_time as int, seg.t_d as int) {
    } else {
        let tr = fxs_sub(t1, t);
        assert(tr == seg.total_time - dt);
        assert(0 <= tr <= seg.t_d);
        crate::trapezoidal_non_zero::lemma_ramp_bound(
            seg.v1.x as int,
            seg.vlim.x as int,
            seg.t_d as int,
            tr,
        );
        crate::trapezoidal_non_zero::lemma_ramp_bound(
            seg.v1.y as int,
            seg.vlim.y as int,
            seg.t_d as int,
            tr,
        );
        crate::trapezoidal_non_zero::lemma_ramp_bound(
            seg.v1.z as int,
            seg.vlim.z as int,
            seg.t_d as int,
            tr,
        );
    }
}

/// The total duration decomposes into the acceleration, cruise and
/// deceleration phases; the cruise phase is never negative, and it is
/// empty whenever the governing axis does not reach its velocity limit.
pub proof fn lemma_phase_decomposition(
    q0: Coord3,
    q1: Coord3,
    v0: Coord3,
    v1: Coord3,
    start_t: int,
    lim: Lim,
)
    requires
        seg3_ok(q0, q1, v0, v1, lim),
        spec_seg3_new(q0, q1, v0, v1, start_t, lim).t_a + spec_seg3_new(
            q0,
            q1,
            v0,
            v1,
            start_t,
            lim,
        ).t_d <= i64::MAX as int,
    ensures
        ({
            let s = spec_seg3_new(q0, q1, v0, v1, start_t, lim);
            let cruise = s.total_time - s.t_a - s.t_d;
            let g = gov_axis(cs_minus(q1, q0));
            &&& s.total_time == s.t_a + cruise + s.t_d
            &&& cruise >= 0
            &&& s.t_a >= 0
            &&& s.t_d >= 0
            &&& !crate::trapezoidal_non_zero::cruise_reached(
                gov_h(q0, q1),
                gov_v0(q0, q1, v0),
                gov_v1(q0, q1, v1),
                axis_of(lim.vel, g),
                axis_of(lim.acc, g),
            ) ==> cruise == 0
        }),
{
    let s = spec_seg3_new(q0, q1, v0, v1, start_t, lim);
    assert(crate::fx::fxs_add(s.t_a as int, s.t_d as int) <= s.total_time as int);
    assert(crate::fx::fxs_add(s.t_a as int, s.t_d as int) == s.t_a + s.t_d);
}

impl Segment {
    /// Build a synchronized segment between two waypoints with the given
    /// boundary velocities, starting at `start_t`.
    ///
    /// Fails with `InvalidLimits` on a non-positive limit component and
    /// with `Infeasible` when the governing axis admits no trapezoid.
    pub fn new(q0: Coord3, q1: Coord3, v0: Coord3, v1: Coord3, start_t: i64, lim: &Lim) -> (r:
        Result<Segment, TrajError>)
        ensures
            r matches Ok(s) ==> s == spec_seg3_new(q0, q1, v0, v1, start_t as int, *lim),
            (r matches Ok(s)) <==> seg3_ok(q0, q1, v0, v1, *lim),
            r matches Err(e) ==> e == (if !limits_ok(*lim) {
                TrajError::InvalidLimits
            } else {
                TrajError::Infeasible
            }),
    {
        if lim.vel.x <= 0 || lim.vel.y <= 0 || lim.vel.z <= 0 || lim.acc.x <= 0 || lim.acc.y <= 0
            || lim.acc.z <= 0 {
            return Err(TrajError::InvalidLimits);
        }
        let h = q1.minus(&q0);
        let ax = fx_abs(h.x);
        let ay = fx_abs(h.y);
        let az = fx_abs(h.z);
        let (hg, v0g, v1g, vmax, amax) = if az > (if ay > ax {
            ay
        } else {
            ax
        }) {
            (h.z, v0.z, v1.z, lim.vel.z, lim.acc.z)
        } else if ay > ax {
            (h.y, v0.y, v1.y, lim.vel.y, lim.acc.y)
        } else {
            (h.x, v0.x, v1.x, lim.vel.x, lim.acc.x)
        };
        let sign: i64 = if hg < 0 {
            -FX_ONE
        } else {
            FX_ONE
        };
        let nh = fx_mul(hg, sign);
        let nv0 = fx_mul(v0g, sign);
        let nv1 = fx_mul(v1g, sign);
        let (t_a, t_d, total, _) = scalar_profile(nh, nv0, nv1, vmax, amax);
        if t_a < 0 || t_d < 0 || crate::fx::fx_add(t_a, t_d) > total {
            return Err(TrajError::Infeasible);
        }
        let denom = fx_sub(total, t_a);
        let vlim = Coord3 {
            x: fx_div(h.x, denom),
            y: fx_div(h.y, denom),
            z: fx_div(h.z, denom),
        };
        Ok(Segment { start_t, q0, q1, v0, v1, total_time: total, t_a, t_d, vlim })
    }

    /// Sample all axes at time `t`, together with the phase.
    pub fn tp(&self, t: i64) -> (r: Option<(Out, Phase)>)
        ensures
            r == spec_seg3_tp(*self, t as int),
    {
        let t1 = crate::fx::fx_add(self.start_t, self.total_time);
        let dt = fx_sub(t, self.start_t);
        if dt < 0 {
            None
        } else if dt < self.t_a {
            let sx = accel_sample(self.q0.x, self.v0.x, self.vlim.x, self.t_a, dt);
            let sy = accel_sample(self.q0.y, self.v0.y, self.vlim.y, self.t_a, dt);
            let sz = accel_sample(self.q0.z, self.v0.z, self.vlim.z, self.t_a, dt);
            Some(
                (
                    Out {
                        pos: Coord3 { x: sx.pos, y: sy.pos, z: sz.pos },
                        vel: Coord3 { x: sx.vel, y: sy.vel, z: sz.vel },
                        acc: Coord3 { x: sx.acc, y: sy.acc, z: sz.acc },
                    },
                    Phase::Accel,
                ),
            )
        } else if dt < fx_sub(self.total_time, self.t_d) {
            let sx = cruise_sample(self.q0.x, self.v0.x, self.vlim.x, self.t_a, dt);
            let sy = cruise_sample(self.q0.y, self.v0.y, self.vlim.y, self.t_a, dt);
            let sz = cruise_sample(self.q0.z, self.v0.z, self.vlim.z, self.t_a, dt);
            Some(
                (
                    Out {
                        pos: Coord3 { x: sx.pos, y: sy.pos, z: sz.pos },
                        vel: self.vlim,
                        acc: Coord3 { x: 0, y: 0, z: 0 },
                    },
                    Phase::Cruise,
                ),
            )
        } else if dt <= self.total_time {
            let tr = fx_sub(t1, t);
            let sx = decel_sample(self.q1.x, self.v1.x, self.vlim.x, self.t_d, tr);
            let sy = decel_sample(self.q1.y, self.v1.y, self.vlim.y, self.t_d, tr);
            let sz = decel_sample(self.q1.z, self.v1.z, self.vlim.z, self.t_d, tr);
            Some(
                (
                    Out {
                        pos: Coord3 { x: sx.pos, y: sy.pos, z: sz.pos },
                        vel: Coord3 { x: sx.vel, y: sy.vel, z: sz.vel },
                        acc: Coord3 { x: sx.acc, y: sy.acc, z: sz.acc },
                    },
                    Phase::Decel,
                ),
            )
        } else {
            None
        }
    }

    /// Initial position of the segment.
    pub fn q0(&self) -> (r: Coord3)
        ensures
            r == self.q0,
    {
        self.q0
    }

    /// Final position of the segment.
    pub fn q1(&self) -> (r: Coord3)
        ensures
            r == self.q1,
    {
        self.q1
    }

    /// Entry velocity of the segment.
    pub fn v0(&self) -> (r: Coord3)
        ensures
            r == self.v0,
    {
        self.v0
    }

    /// Exit velocity of the segment.
    pub fn v1(&self) -> (r: Coord3)
        ensures
            r == self.v1,
    {
        self.v1
    }
}

} // verus!

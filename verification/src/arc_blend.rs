//! Bounded-deviation circular corner blends, after the time-optimal
//! blending construction of Kunz and Stilman.
//!
//! A blend replaces the neighborhood of a corner waypoint with a circular
//! arc tangent to both adjacent line directions, kept within a maximum
//! deviation from the corner. The half-angle trigonometry is derived from
//! the cosine of the corner angle with square roots alone; the angle itself
//! and the in-arc interpolation use truncated series, so every value is an
//! exact integer function of the inputs.
//!
//! Known limitation of this blending model: sampled velocity and
//! acceleration inside the arc are unit direction vectors, not physically
//! scaled magnitudes.

use vstd::prelude::*;

use crate::errors::TrajError;
use crate::fx::{
    abs_int, fx_add, fx_div, fx_min, fx_mul, fx_sqrt, fx_sub, fxs_add, fxs_div, fxs_mul, fxs_sqrt,
    fxs_sub, FX_HALF, FX_ONE,
};
use crate::trapezoidal_non_zero_3d::{Lim, Out};
use crate::vec3::{cs_cross, cs_dot, cs_minus, cs_norm, cs_normalize, cs_plus, cs_scale, Coord3};

verus! {

/// Fixed-point pi.
pub const FX_PI: i64 = 3_141_593;

/// Fixed-point pi over two.
pub const FX_PI_HALF: i64 = 1_570_796;

/// Corners whose half-angle sine falls below this threshold (one
/// thousandth, an outside angle of roughly 0.1 degree) are treated as
/// colinear: no usable arc exists there.
pub const COLINEAR_SIN_EPS: i64 = 1_000;

/// Clamp a fixed-point value into the unit interval `[-1, 1]`.
pub open spec fn fxs_clamp_unit(x: int) -> int {
    if x > FX_ONE as int {
        FX_ONE as int
    } else if x < -(FX_ONE as int) {
        -(FX_ONE as int)
    } else {
        x
    }
}

/// Truncated Taylor series for the sine of `y` in `[0, pi/2]`:
/// `y - y^3/6 + y^5/120 - y^7/5040`.
pub open spec fn sin_series(y: int) -> int {
    let y2 = fxs_mul(y, y);
    let y3 = fxs_mul(y2, y);
    let y5 = fxs_mul(y3, y2);
    let y7 = fxs_mul(y5, y2);
    fxs_sub(
        fxs_add(fxs_sub(y, fxs_div(y3, 6_000_000)), fxs_div(y5, 120_000_000)),
        fxs_div(y7, 5_040_000_000),
    )
}

/// Fixed-point sine on `[0, pi]`: the argument is clamped into that range
/// and reflected about pi/2 before the series is applied.
pub open spec fn fxs_sin(x: int) -> int {
    let c = if x < 0 {
        0
    } else if x > FX_PI as int {
        FX_PI as int
    } else {
        x
    };
    let y = if c > FX_PI_HALF as int {
        fxs_sub(FX_PI as int, c)
    } else {
        c
    };
    sin_series(y)
}

/// Truncated arcsine series on the clamped unit interval:
/// `s + s^3/6 + 3 s^5/40 + 15 s^7/336 + 105 s^9/3456 + 945 s^11/42240`.
pub open spec fn fxs_asin(s: int) -> int {
    let c = if s < 0 {
        0
    } else if s > FX_ONE as int {
        FX_ONE as int
    } else {
        s
    };
    let c2 = fxs_mul(c, c);
    let c3 = fxs_mul(c2, c);
    let c5 = fxs_mul(c3, c2);
    let c7 = fxs_mul(c5, c2);
    let c9 = fxs_mul(c7, c2);
    let c11 = fxs_mul(c9, c2);
    fxs_add(
        fxs_add(
            fxs_add(
                fxs_add(
                    fxs_add(c, fxs_div(c3, 6_000_000)),
                    fxs_mul(c5, 75_000),
                ),
                fxs_div(fxs_mul(c7, 15_000_000), 336_000_000),
            ),
            fxs_div(fxs_mul(c9, 105_000_000), 3_456_000_000),
        ),
        fxs_div(fxs_mul(c11, 945_000_000), 42_240_000_000),
    )
}

/// Compute the fixed-point sine.
pub fn fx_sin(x: i64) -> (r: i64)
    ensures
        r as int == fxs_sin(x as int),
{
    let c = if x < 0 {
        0
    } else if x > FX_PI {
        FX_PI
    } else {
        x
    };
    let y = if c > FX_PI_HALF {
        fx_sub(FX_PI, c)
    } else {
        c
    };
    let y2 = fx_mul(y, y);
    let y3 = fx_mul(y2, y);
    let y5 = fx_mul(y3, y2);
    let y7 = fx_mul(y5, y2);
    fx_sub(
        fx_add(fx_sub(y, fx_div(y3, 6_000_000)), fx_div(y5, 120_000_000)),
        fx_div(y7, 5_040_000_000),
    )
}

/// Compute the fixed-point arcsine.
pub fn fx_asin(s: i64) -> (r: i64)
    ensures
        r as int == fxs_asin(s as int),
{
    let c = if s < 0 {
        0
    } else if s > FX_ONE {
        FX_ONE
    } else {
        s
    };
    let c2 = fx_mul(c, c);
    let c3 = fx_mul(c2, c);
    let c5 = fx_mul(c3, c2);
    let c7 = fx_mul(c5, c2);
    let c9 = fx_mul(c7, c2);
    let c11 = fx_mul(c9, c2);
    fx_add(
        fx_add(
            fx_add(
                fx_add(fx_add(c, fx_div(c3, 6_000_000)), fx_mul(c5, 75_000)),
                fx_div(fx_mul(c7, 15_000_000), 336_000_000),
            ),
            fx_div(fx_mul(c9, 105_000_000), 3_456_000_000),
        ),
        fx_div(fx_mul(c11, 945_000_000), 42_240_000_000),
    )
}

/// A circular corner blend between two adjacent line segments.
#[derive(Clone, Copy, Debug, PartialEq, Eq, Structural)]
pub struct ArcBlend {
    pub prev: Coord3,
    pub mid: Coord3,
    pub next: Coord3,
    pub max_deviation: i64,
    pub arc_start: Coord3,
    pub arc_center: Coord3,
    pub arc_radius: i64,
    pub arc_end: Coord3,
    pub arc_len: i64,
    pub velocity_limit: Coord3,
    pub time: i64,
    pub start_t: i64,
    /// Whether the corner is degenerate: adjacent directions effectively
    /// parallel, or a zero-length adjacent segment. Such a blend holds no
    /// usable arc and must be skipped.
    pub is_colinear: bool,
}

/// Cosine of the outside angle between the two segment directions, clamped
/// into the unit interval.
pub open spec fn spec_corner_cos(prev: Coord3, mid: Coord3, next: Coord3) -> int {
    let pd = cs_minus(mid, prev);
    let nd = cs_minus(next, mid);
    fxs_clamp_unit(fxs_div(cs_dot(pd, nd), fxs_mul(cs_norm(pd), cs_norm(nd))))
}

/// Sine of the half corner angle, from `sin^2 = (1 - cos)/2`.
pub open spec fn spec_sin_half(prev: Coord3, mid: Coord3, next: Coord3) -> int {
    fxs_sqrt(fxs_mul(fxs_sub(FX_ONE as int, spec_corner_cos(prev, mid, next)), FX_HALF as int))
}

/// Cosine of the half corner angle, from `cos^2 = (1 + cos)/2`.
pub open spec fn spec_cos_half(prev: Coord3, mid: Coord3, next: Coord3) -> int {
    fxs_sqrt(fxs_mul(fxs_add(FX_ONE as int, spec_corner_cos(prev, mid, next)), FX_HALF as int))
}

/// Distance from the corner along each segment that the arc may consume:
/// half of either adjacent segment at most, and no more than the deviation
/// bound `max_deviation sin(a/2) / (1 - cos(a/2))`.
pub open spec fn spec_radius_limit(
    prev: Coord3,
    mid: Coord3,
    next: Coord3,
    max_deviation: int,
) -> int {
    let pd = cs_minus(mid, prev);
    let nd = cs_minus(next, mid);
    let dev = fxs_div(
        fxs_mul(max_deviation, spec_sin_half(prev, mid, next)),
        fxs_sub(FX_ONE as int, spec_cos_half(prev, mid, next)),
    );
    let half_prev = fxs_mul(cs_norm(pd), FX_HALF as int);
    let half_next = fxs_mul(cs_norm(nd), FX_HALF as int);
    let m = if half_prev <= half_next {
        half_prev
    } else {
        half_next
    };
    if m <= dev {
        m
    } else {
        dev
    }
}

/// Arc radius: the consumed distance divided by the tangent of the half
/// angle.
pub open spec fn spec_arc_radius(
    prev: Coord3,
    mid: Coord3,
    next: Coord3,
    max_deviation: int,
) -> int {
    fxs_div(
        spec_radius_limit(prev, mid, next, max_deviation),
        fxs_div(spec_sin_half(prev, mid, next), spec_cos_half(prev, mid, next)),
    )
}

/// Center of the blend circle: from the corner along the bisector
/// direction, at distance `radius / cos(a/2)`.
pub open spec fn spec_arc_center(
    prev: Coord3,
    mid: Coord3,
    next: Coord3,
    max_deviation: int,
) -> Coord3 {
    let pdir = cs_normalize(cs_minus(mid, prev));
    let ndir = cs_normalize(cs_minus(next, mid));
    cs_plus(
        mid,
        cs_scale(
            cs_normalize(cs_minus(ndir, pdir)),
            fxs_div(
                spec_arc_radius(prev, mid, next, max_deviation),
                spec_cos_half(prev, mid, next),
            ),
        ),
    )
}

/// Projection of a point onto the blend circle: from the center toward the
/// point, at the arc radius.
pub open spec fn spec_on_circle(center: Coord3, radius: int, p: Coord3) -> Coord3 {
    cs_plus(center, cs_scale(cs_normalize(cs_minus(p, center)), radius))
}

/// The outside corner angle, `2 asin(sin(a/2))`.
pub open spec fn spec_corner_angle(prev: Coord3, mid: Coord3, next: Coord3) -> int {
    let a = fxs_asin(spec_sin_half(prev, mid, next));
    fxs_add(a, a)
}

/// Per-axis arc velocity cap from the centripetal constraint
/// `v^2 <= r a`, clamped to the configured limit.
pub open spec fn spec_arc_vel_limit(radius: int, lim: Lim) -> Coord3 {
    Coord3 {
        x: (if fxs_sqrt(fxs_mul(radius, lim.acc.x as int)) <= lim.vel.x as int {
            fxs_sqrt(fxs_mul(radius, lim.acc.x as int))
        } else {
            lim.vel.x as int
        }) as i64,
        y: (if fxs_sqrt(fxs_mul(radius, lim.acc.y as int)) <= lim.vel.y as int {
            fxs_sqrt(fxs_mul(radius, lim.acc.y as int))
        } else {
            lim.vel.y as int
        }) as i64,
        z: (if fxs_sqrt(fxs_mul(radius, lim.acc.z as int)) <= lim.vel.z as int {
            fxs_sqrt(fxs_mul(radius, lim.acc.z as int))
        } else {
            lim.vel.z as int
        }) as i64,
    }
}

/// Whether the corner is degenerate: effectively parallel directions or a
/// zero-length adjacent segment.
pub open spec fn spec_is_colinear(prev: Coord3, mid: Coord3, next: Coord3) -> bool {
    spec_sin_half(prev, mid, next) < COLINEAR_SIN_EPS as int || cs_norm(cs_minus(mid, prev)) == 0
        || cs_norm(cs_minus(next, mid)) == 0
}

/// The blend value built from a corner and its two neighbors.
pub open spec fn spec_arc_new(
    prev: Coord3,
    mid: Coord3,
    next: Coord3,
    max_deviation: int,
    start_t: int,
    lim: Lim,
) -> ArcBlend {
    let pdir = cs_normalize(cs_minus(mid, prev));
    let ndir = cs_normalize(cs_minus(next, mid));
    let rl = spec_radius_limit(prev, mid, next, max_deviation);
    let radius = spec_arc_radius(prev, mid, next, max_deviation);
    let center = spec_arc_center(prev, mid, next, max_deviation);
    let a_start = spec_on_circle(center, radius, cs_minus(mid, cs_scale(pdir, rl)));
    let a_end = spec_on_circle(center, radius, cs_plus(mid, cs_scale(ndir, rl)));
    let alen = fxs_mul(spec_corner_angle(prev, mid, next), radius);
    let vcap = spec_arc_vel_limit(radius, lim);
    ArcBlend {
        prev,
        mid,
        next,
        max_deviation: max_deviation as i64,
        arc_start: a_start,
        arc_center: center,
        arc_radius: radius as i64,
        arc_end: a_end,
        arc_len: alen as i64,
        velocity_limit: vcap,
        time: fxs_mul(cs_norm(vcap), alen) as i64,
        start_t: start_t as i64,
        is_colinear: spec_is_colinear(prev, mid, next),
    }
}

/// Unit normal of the corner plane.
pub open spec fn spec_arc_normal(b: ArcBlend) -> Coord3 {
    cs_normalize(cs_cross(cs_minus(b.next, b.mid), cs_minus(b.mid, b.prev)))
}

/// Unit tangent to the arc at a point `p` on it: perpendicular to both the
/// corner-plane normal and the centripetal direction at `p`.
pub open spec fn spec_arc_tangent(b: ArcBlend, p: Coord3) -> Coord3 {
    cs_normalize(cs_cross(spec_arc_normal(b), cs_normalize(cs_minus(b.arc_center, p))))
}

/// The sample of a blend at time `t`: spherical interpolation between the
/// two radius vectors, with unit centripetal and tangent directions for
/// acceleration and velocity; nothing outside `[start_t, start_t + time)`.
pub open spec fn spec_arc_tp(b: ArcBlend, t: int) -> Option<Out> {
    let dt = fxs_sub(t, b.start_t as int);
    if dt >= b.time as int || dt < 0 {
        None
    } else {
        let tau = fxs_div(dt, b.time as int);
        let uh = cs_normalize(cs_minus(b.arc_start, b.arc_center));
        let wh = cs_normalize(cs_minus(b.arc_end, b.arc_center));
        let theta = fxs_div(b.arc_len as int, b.arc_radius as int);
        let st = fxs_sin(theta);
        let s1 = fxs_sin(fxs_mul(fxs_sub(FX_ONE as int, tau), theta));
        let s2 = fxs_sin(fxs_mul(tau, theta));
        let unit = if st == 0 {
            uh
        } else {
            Coord3 {
                x: fxs_div(
                    fxs_add(fxs_mul(uh.x as int, s1), fxs_mul(wh.x as int, s2)),
                    st,
                ) as i64,
                y: fxs_div(
                    fxs_add(fxs_mul(uh.y as int, s1), fxs_mul(wh.y as int, s2)),
                    st,
                ) as i64,
                z: fxs_div(
                    fxs_add(fxs_mul(uh.z as int, s1), fxs_mul(wh.z as int, s2)),
                    st,
                ) as i64,
            }
        };
        let pos = cs_plus(b.arc_center, cs_scale(unit, b.arc_radius as int));
        let acc = cs_normalize(cs_minus(b.arc_center, pos));
        let vel = cs_normalize(cs_cross(spec_arc_normal(b), acc));
        Some(Out { pos, vel, acc })
    }
}

/// The distance the arc consumes along each adjacent segment never
/// exceeds half of either segment's length nor the deviation-derived
/// bound; and for corners of at least a right angle (where the half-angle
/// tangent reaches one) the arc radius in turn stays within that consumed
/// distance.
pub proof fn lemma_radius_bounds(prev: Coord3, mid: Coord3, next: Coord3, max_deviation: int)
    ensures
        spec_radius_limit(prev, mid, next, max_deviation) <= fxs_mul(
            cs_norm(cs_minus(mid, prev)),
            FX_HALF as int,
        ),
        spec_radius_limit(prev, mid, next, max_deviation) <= fxs_mul(
            cs_norm(cs_minus(next, mid)),
            FX_HALF as int,
        ),
        spec_radius_limit(prev, mid, next, max_deviation) <= fxs_div(
            fxs_mul(max_deviation, spec_sin_half(prev, mid, next)),
            fxs_sub(FX_ONE as int, spec_cos_half(prev, mid, next)),
        ),
        (fxs_div(spec_sin_half(prev, mid, next), spec_cos_half(prev, mid, next)) >= FX_ONE as int
            && spec_radius_limit(prev, mid, next, max_deviation) >= 0) ==> spec_arc_radius(
            prev,
            mid,
            next,
            max_deviation,
        ) <= spec_radius_limit(prev, mid, next, max_deviation),
{
    let rl = spec_radius_limit(prev, mid, next, max_deviation);
    let tan = fxs_div(spec_sin_half(prev, mid, next), spec_cos_half(prev, mid, next));
    if tan >= FX_ONE as int && rl >= 0 {
        let n = rl * (FX_ONE as int);
        assert(n >= 0) by (nonlinear_arith)
            requires
                rl >= 0,
                n == rl * 1_000_000,
        ;
        vstd::arithmetic::div_mod::lemma_div_is_ordered_by_denominator(n, FX_ONE as int, tan);
        vstd::arithmetic::div_mod::lemma_div_multiples_vanish(rl, FX_ONE as int);
        assert(abs_int(n) == abs_int(rl) * (FX_ONE as int)) by (nonlinear_arith)
            requires
                rl >= 0,
                n == rl * 1_000_000,
        ;
    }
}

impl ArcBlend {
    /// Build the blend for the corner `mid` between `prev` and `next`,
    /// within `max_deviation` of the corner, starting at `start_t`.
    ///
    /// Fails with `InvalidLimits` on a non-positive limit component.
    pub fn new(
        prev: Coord3,
        mid: Coord3,
        next: Coord3,
        max_deviation: i64,
        start_t: i64,
        lim: Lim,
    ) -> (r: Result<ArcBlend, TrajError>)
        ensures
            r matches Ok(b) ==> b == spec_arc_new(
                prev,
                mid,
                next,
                max_deviation as int,
                start_t as int,
                lim,
            ),
            (r matches Ok(b)) <==> crate::trapezoidal_non_zero_3d::limits_ok(lim),
            r matches Err(e) ==> e == TrajError::InvalidLimits,
    {
        if lim.vel.x <= 0 || lim.vel.y <= 0 || lim.vel.z <= 0 || lim.acc.x <= 0 || lim.acc.y <= 0
            || lim.acc.z <= 0 {
            return Err(TrajError::InvalidLimits);
        }
        let pd = mid.minus(&prev);
        let nd = next.minus(&mid);
        let pdir = pd.normalize();
        let ndir = nd.normalize();
        let prev_len = pd.norm();
        let next_len = nd.norm();
        let d_raw = fx_div(pd.dot(&nd), fx_mul(prev_len, next_len));
        let d = if d_raw > FX_ONE {
            FX_ONE
        } else if d_raw < -FX_ONE {
            -FX_ONE
        } else {
            d_raw
        };
        let sin_half = fx_sqrt(fx_mul(fx_sub(FX_ONE, d), FX_HALF));
        let cos_half = fx_sqrt(fx_mul(fx_add(FX_ONE, d), FX_HALF));
        let is_colinear = sin_half < COLINEAR_SIN_EPS || prev_len == 0 || next_len == 0;
        let dev = fx_div(fx_mul(max_deviation, sin_half), fx_sub(FX_ONE, cos_half));
        let rl = fx_min(fx_min(fx_mul(prev_len, FX_HALF), fx_mul(next_len, FX_HALF)), dev);
        let radius = fx_div(rl, fx_div(sin_half, cos_half));
        let center = mid.plus(&ndir.minus(&pdir).normalize().scale(fx_div(radius, cos_half)));
        let a_start = center.plus(
            &mid.minus(&pdir.scale(rl)).minus(&center).normalize().scale(radius),
        );
        let a_end = center.plus(
            &mid.plus(&ndir.scale(rl)).minus(&center).normalize().scale(radius),
        );
        let half_angle = fx_asin(sin_half);
        let alen = fx_mul(fx_add(half_angle, half_angle), radius);
        let vcap = Coord3 {
            x: fx_min(fx_sqrt(fx_mul(radius, lim.acc.x)), lim.vel.x),
            y: fx_min(fx_sqrt(fx_mul(radius, lim.acc.y)), lim.vel.y),
            z: fx_min(fx_sqrt(fx_mul(radius, lim.acc.z)), lim.vel.z),
        };
        Ok(
            ArcBlend {
                prev,
                mid,
                next,
                max_deviation,
                arc_start: a_start,
                arc_center: center,
                arc_radius: radius,
                arc_end: a_end,
                arc_len: alen,
                velocity_limit: vcap,
                time: fx_mul(vcap.norm(), alen),
                start_t,
                is_colinear,
            },
        )
    }

    /// Sample position and unit velocity/acceleration directions at `t`.
    pub fn tp(&self, t: i64) -> (r: Option<Out>)
        ensures
            r == spec_arc_tp(*self, t as int),
    {
        let dt = fx_sub(t, self.start_t);
        if dt >= self.time || dt < 0 {
            return None;
        }
        let tau = fx_div(dt, self.time);
        let uh = self.arc_start.minus(&self.arc_center).normalize();
        let wh = self.arc_end.minus(&self.arc_center).normalize();
        let theta = fx_div(self.arc_len, self.arc_radius);
        let st = fx_sin(theta);
        let s1 = fx_sin(fx_mul(fx_sub(FX_ONE, tau), theta));
        let s2 = fx_sin(fx_mul(tau, theta));
        let unit = if st == 0 {
            uh
        } else {
            Coord3 {
                x: fx_div(fx_add(fx_mul(uh.x, s1), fx_mul(wh.x, s2)), st),
                y: fx_div(fx_add(fx_mul(uh.y, s1), fx_mul(wh.y, s2)), st),
                z: fx_div(fx_add(fx_mul(uh.z, s1), fx_mul(wh.z, s2)), st),
            }
        };
        let pos = self.arc_center.plus(&unit.scale(self.arc_radius));
        let acc = self.arc_center.minus(&pos).normalize();
        let b = self.next.minus(&self.mid);
        let a = self.mid.minus(&self.prev);
        let normal = b.cross(&a).normalize();
        let vel = normal.cross(&acc).normalize();
        Some(Out { pos, vel, acc })
    }

    /// Unit tangent direction of the arc at its start point.
    pub fn start_tangent(&self) -> (r: Coord3)
        ensures
            r == spec_arc_tangent(*self, self.arc_start),
    {
        let b = self.next.minus(&self.mid);
        let a = self.mid.minus(&self.prev);
        let normal = b.cross(&a).normalize();
        normal.cross(&self.arc_center.minus(&self.arc_start).normalize()).normalize()
    }

    /// Unit tangent direction of the arc at its end point.
    pub fn end_tangent(&self) -> (r: Coord3)
        ensures
            r == spec_arc_tangent(*self, self.arc_end),
    {
        let b = self.next.minus(&self.mid);
        let a = self.mid.minus(&self.prev);
        let normal = b.cross(&a).normalize();
        normal.cross(&self.arc_center.minus(&self.arc_end).normalize()).normalize()
    }
}

} // verus!

//! Single-axis trapezoidal segments that start and end at rest, with
//! optional overlap of adjacent profiles.
//!
//! This simplest profile accelerates to the velocity limit, cruises and
//! decelerates symmetrically. A chain of such segments can be sampled with
//! [`tp_seg`], which sums the samples of overlapping profiles and
//! integrates the summed velocity through the overlap window.

use vstd::prelude::*;

use crate::fx::{
    fx_add, fx_div, fx_min, fx_mul, fx_neg, fx_sqrt, fx_sub, fxs_add, fxs_div, fxs_mul, fxs_neg,
    fxs_sqrt, fxs_sub, FX_HALF, FX_TWO,
};

verus! {

/// Limits for this profile family; the jerk bound is carried but unused by
/// a trapezoidal profile.
#[derive(Clone, Copy, Debug, PartialEq, Eq, Structural)]
pub struct Lim {
    pub vel: i64,
    pub acc: i64,
    pub jerk: i64,
}

/// A sample of the profile; jerk stays zero for a trapezoid.
#[derive(Clone, Copy, Debug, PartialEq, Eq, Structural)]
pub struct Out {
    pub pos: i64,
    pub vel: i64,
    pub acc: i64,
    pub jerk: i64,
}

impl Out {
    /// Component-wise saturating sum, used across overlapping profiles.
    pub fn add(self, rhs: Out) -> (r: Out)
        ensures
            r == out_sum(self, rhs),
    {
        Out {
            pos: fx_add(self.pos, rhs.pos),
            vel: fx_add(self.vel, rhs.vel),
            acc: fx_add(self.acc, rhs.acc),
            jerk: fx_add(self.jerk, rhs.jerk),
        }
    }
}

/// Component-wise saturating sum of two samples.
pub open spec fn out_sum(a: Out, b: Out) -> Out {
    Out {
        pos: fxs_add(a.pos as int, b.pos as int) as i64,
        vel: fxs_add(a.vel as int, b.vel as int) as i64,
        acc: fxs_add(a.acc as int, b.acc as int) as i64,
        jerk: fxs_add(a.jerk as int, b.jerk as int) as i64,
    }
}

/// The all-zero sample.
pub open spec fn out_zero() -> Out {
    Out { pos: 0, vel: 0, acc: 0, jerk: 0 }
}

/// Phase durations of a profile.
#[derive(Clone, Copy, Debug, PartialEq, Eq, Structural)]
pub struct Times {
    pub t_j1: i64,
    pub t_j2: i64,
    pub t_d: i64,
    pub t_a: i64,
    pub t_v: i64,
    pub total_time: i64,
}

/// A single rest-to-rest trapezoidal segment.
#[derive(Clone, Copy, Debug, PartialEq, Eq, Structural)]
pub struct Segment {
    /// Start time of this segment.
    pub start_t: i64,
    /// Duration of this segment.
    pub t: i64,
    /// Initial position.
    pub q0: i64,
    /// Final position.
    pub q1: i64,
    /// Initial velocity.
    pub v0: i64,
    /// Final velocity.
    pub v1: i64,
    /// Total duration.
    pub total_time: i64,
    /// Acceleration (and deceleration) duration.
    pub t_a: i64,
    /// Highest velocity reached in this segment.
    pub vlim: i64,
    /// Limits provided by the user.
    pub lim: Lim,
}

/// Whether the displacement is too short to reach the velocity limit.
pub open spec fn short_stroke(h: int, vel: int, acc: int) -> bool {
    h < fxs_div(fxs_mul(vel, vel), acc)
}

/// Ramp duration: `vel/acc`, or `sqrt(h/acc)` for a short stroke.
pub open spec fn rest_ramp_time(h: int, vel: int, acc: int) -> int {
    if short_stroke(h, vel, acc) {
        fxs_sqrt(fxs_div(h, acc))
    } else {
        fxs_div(vel, acc)
    }
}

/// Total duration: `(h acc + vel^2)/(acc vel)`, or twice the ramp for a
/// short stroke.
pub open spec fn rest_total_time(h: int, vel: int, acc: int) -> int {
    if short_stroke(h, vel, acc) {
        fxs_add(rest_ramp_time(h, vel, acc), rest_ramp_time(h, vel, acc))
    } else {
        fxs_div(fxs_add(fxs_mul(h, acc), fxs_mul(vel, vel)), fxs_mul(acc, vel))
    }
}

/// Peak velocity: the limit, or `acc * ramp` for a short stroke.
pub open spec fn rest_peak_vel(h: int, vel: int, acc: int) -> int {
    if short_stroke(h, vel, acc) {
        fxs_mul(acc, rest_ramp_time(h, vel, acc))
    } else {
        vel
    }
}

/// The segment value built from the endpoints and limits.
pub open spec fn spec_rest_new(q0: int, q1: int, v0: int, v1: int, lim: Lim) -> Segment {
    let h = fxs_sub(q1, q0);
    Segment {
        start_t: 0,
        t: rest_total_time(h, lim.vel as int, lim.acc as int) as i64,
        q0: q0 as i64,
        q1: q1 as i64,
        v0: v0 as i64,
        v1: v1 as i64,
        total_time: rest_total_time(h, lim.vel as int, lim.acc as int) as i64,
        t_a: rest_ramp_time(h, lim.vel as int, lim.acc as int) as i64,
        vlim: rest_peak_vel(h, lim.vel as int, lim.acc as int) as i64,
        lim,
    }
}

/// The sample of a rest-to-rest segment at `t`, by phase; nothing outside
/// the segment's own time window.
pub open spec fn spec_rest_tp(seg: Segment, t: int) -> Option<Out> {
    let dt = fxs_sub(t, seg.start_t as int);
    if dt < 0 {
        None
    } else if dt < seg.t_a as int {
        let a2 = fxs_div(seg.vlim as int, fxs_mul(FX_TWO as int, seg.t_a as int));
        Some(
            Out {
                pos: fxs_add(seg.q0 as int, fxs_mul(a2, fxs_mul(dt, dt))) as i64,
                vel: fxs_mul(fxs_mul(FX_TWO as int, a2), dt) as i64,
                acc: fxs_mul(FX_TWO as int, a2) as i64,
                jerk: 0,
            },
        )
    } else if dt < fxs_sub(seg.total_time as int, seg.t_a as int) {
        let b0 = fxs_sub(seg.q0 as int, fxs_mul(fxs_mul(seg.vlim as int, seg.t_a as int), FX_HALF as int));
        Some(
            Out {
                pos: fxs_add(b0, fxs_mul(seg.vlim as int, dt)) as i64,
                vel: seg.vlim,
                acc: 0,
                jerk: 0,
            },
        )
    } else if dt <= seg.total_time as int {
        let c0 = fxs_sub(
            seg.q1 as int,
            fxs_div(
                fxs_mul(seg.vlim as int, fxs_mul(seg.total_time as int, seg.total_time as int)),
                fxs_mul(FX_TWO as int, seg.t_a as int),
            ),
        );
        let c1 = fxs_div(fxs_mul(seg.vlim as int, seg.total_time as int), seg.t_a as int);
        let c2 = fxs_neg(fxs_div(seg.vlim as int, fxs_mul(FX_TWO as int, seg.t_a as int)));
        Some(
            Out {
                pos: fxs_add(fxs_add(c0, fxs_mul(c1, dt)), fxs_mul(c2, fxs_mul(dt, dt))) as i64,
                vel: fxs_add(c1, fxs_mul(fxs_mul(FX_TWO as int, c2), dt)) as i64,
                acc: fxs_mul(FX_TWO as int, c2) as i64,
                jerk: 0,
            },
        )
    } else {
        None
    }
}

impl Segment {
    /// Build the fastest rest-to-rest profile from `q0` to `q1`; the
    /// formulas assume a non-negative displacement.
    fn new(q0: i64, q1: i64, v0: i64, v1: i64, lim: &Lim) -> (r: Segment)
        ensures
            r == spec_rest_new(q0 as int, q1 as int, v0 as int, v1 as int, *lim),
    {
        let h = fx_sub(q1, q0);
        let short = h < fx_div(fx_mul(lim.vel, lim.vel), lim.acc);
        let t_a = if short {
            fx_sqrt(fx_div(h, lim.acc))
        } else {
            fx_div(lim.vel, lim.acc)
        };
        let total = if short {
            fx_add(t_a, t_a)
        } else {
            fx_div(fx_add(fx_mul(h, lim.acc), fx_mul(lim.vel, lim.vel)), fx_mul(lim.acc, lim.vel))
        };
        let vlim = if short {
            fx_mul(lim.acc, t_a)
        } else {
            lim.vel
        };
        Segment {
            start_t: 0,
            t: total,
            q0,
            q1,
            v0,
            v1,
            total_time: total,
            t_a,
            vlim,
            lim: *lim,
        }
    }

    /// Final position of the segment.
    pub fn final_pos(&self) -> (r: i64)
        ensures
            r == self.q1,
    {
        self.q1
    }

    /// Sample the profile at time `t`.
    fn tp(&self, t: i64) -> (r: Option<Out>)
        ensures
            r == spec_rest_tp(*self, t as int),
    {
        let dt = fx_sub(t, self.start_t);
        if dt < 0 {
            None
        } else if dt < self.t_a {
            let a2 = fx_div(self.vlim, fx_mul(FX_TWO, self.t_a));
            Some(
                Out {
                    pos: fx_add(self.q0, fx_mul(a2, fx_mul(dt, dt))),
                    vel: fx_mul(fx_mul(FX_TWO, a2), dt),
                    acc: fx_mul(FX_TWO, a2),
                    jerk: 0,
                },
            )
        } else if dt < fx_sub(self.total_time, self.t_a) {
            let b0 = fx_sub(self.q0, fx_mul(fx_mul(self.vlim, self.t_a), FX_HALF));
            Some(Out { pos: fx_add(b0, fx_mul(self.vlim, dt)), vel: self.vlim, acc: 0, jerk: 0 })
        } else if dt <= self.total_time {
            let c0 = fx_sub(
                self.q1,
                fx_div(
                    fx_mul(self.vlim, fx_mul(self.total_time, self.total_time)),
                    fx_mul(FX_TWO, self.t_a),
                ),
            );
            let c1 = fx_div(fx_mul(self.vlim, self.total_time), self.t_a);
            let c2 = fx_neg(fx_div(self.vlim, fx_mul(FX_TWO, self.t_a)));
            Some(
                Out {
                    pos: fx_add(fx_add(c0, fx_mul(c1, dt)), fx_mul(c2, fx_mul(dt, dt))),
                    vel: fx_add(c1, fx_mul(fx_mul(FX_TWO, c2), dt)),
                    acc: fx_mul(FX_TWO, c2),
                    jerk: 0,
                },
            )
        } else {
            None
        }
    }
}

/// Build a segment and sample it, reporting the phase durations through
/// `times`; an out-of-range time samples as all zeros.
pub fn tp(t: i64, q0: i64, q1: i64, v0: i64, v1: i64, lim: &Lim, times: &mut Times) -> (r: (
    i64,
    Out,
))
    ensures
        ({
            let seg = spec_rest_new(q0 as int, q1 as int, v0 as int, v1 as int, *lim);
            &&& r.0 == seg.total_time
            &&& r.1 == (match spec_rest_tp(seg, t as int) {
                Some(o) => o,
                None => out_zero(),
            })
            &&& *final(times) == (Times {
                t_j1: 0i64,
                t_j2: 0i64,
                t_d: 0i64,
                t_a: seg.t_a,
                t_v: 0i64,
                total_time: seg.total_time,
            })
        }),
{
    let segment = Segment::new(q0, q1, v0, v1, lim);
    let total_time = segment.t;
    *times = Times { t_j1: 0, t_j2: 0, t_d: 0, t_a: segment.t_a, t_v: 0, total_time };
    let out = match segment.tp(t) {
        Some(o) => o,
        None => Out { pos: 0, vel: 0, acc: 0, jerk: 0 },
    };
    (total_time, out)
}

/// Whether `t` falls inside the span of `s`.
pub open spec fn in_range(s: Segment, t: int) -> bool {
    s.start_t as int <= t && fxs_add(s.start_t as int, s.total_time as int) > t
}

/// Number of segments whose span contains `t`.
pub open spec fn count_in_range(ss: Seq<Segment>, t: int) -> int
    decreases ss.len(),
{
    if ss.len() == 0 {
        0
    } else {
        count_in_range(ss.drop_last(), t) + if in_range(ss.last(), t) {
            1int
        } else {
            0int
        }
    }
}

/// Sum of the samples of every in-range segment, accumulated in order.
pub open spec fn sum_outs(ss: Seq<Segment>, t: int) -> Out
    decreases ss.len(),
{
    if ss.len() == 0 {
        out_zero()
    } else {
        let prev = sum_outs(ss.drop_last(), t);
        if in_range(ss.last(), t) {
            match spec_rest_tp(ss.last(), t) {
                Some(o) => out_sum(prev, o),
                None => prev,
            }
        } else {
            prev
        }
    }
}

/// The first in-range segment, if any.
pub open spec fn first_in_range(ss: Seq<Segment>, t: int) -> Option<Segment>
    decreases ss.len(),
{
    if ss.len() == 0 {
        None
    } else {
        let prev = first_in_range(ss.drop_last(), t);
        if prev is Some {
            prev
        } else if in_range(ss.last(), t) {
            Some(ss.last())
        } else {
            None
        }
    }
}

/// A segment chain with any in-range member has a first in-range member.
proof fn lemma_first_in_range_some(ss: Seq<Segment>, t: int)
    requires
        count_in_range(ss, t) > 0,
    ensures
        first_in_range(ss, t) is Some,
    decreases ss.len(),
{
    if ss.len() > 0 {
        if count_in_range(ss.drop_last(), t) > 0 {
            lemma_first_in_range_some(ss.drop_last(), t);
        }
    }
}

/// The in-range count never exceeds the chain length.
proof fn lemma_count_le_len(ss: Seq<Segment>, t: int)
    ensures
        0 <= count_in_range(ss, t) <= ss.len(),
    decreases ss.len(),
{
    if ss.len() > 0 {
        lemma_count_le_len(ss.drop_last(), t);
    }
}

/// The chain sample at `t`: the summed samples; inside an overlap of two
/// profiles the position is instead integrated from the summed velocity
/// since the start of the earlier profile's deceleration.
pub open spec fn spec_tp_seg(ss: Seq<Segment>, t: int) -> (int, Out) {
    let outs = sum_outs(ss, t);
    let total = if ss.len() > 0 {
        fxs_add(ss.last().start_t as int, ss.last().total_time as int)
    } else {
        0
    };
    if count_in_range(ss, t) > 1 {
        let prev = first_in_range(ss, t)->Some_0;
        let decel_start = fxs_sub(
            fxs_add(prev.start_t as int, prev.total_time as int),
            prev.t_a as int,
        );
        let delta = fxs_sub(t, decel_start);
        let pos_at = match spec_rest_tp(prev, decel_start) {
            Some(o) => o.pos as int,
            None => 0,
        };
        (
            total,
            Out {
                pos: fxs_add(pos_at, fxs_mul(outs.vel as int, delta)) as i64,
                vel: outs.vel,
                acc: outs.acc,
                jerk: outs.jerk,
            },
        )
    } else {
        (total, outs)
    }
}

/// Sample a chain of possibly overlapping segments at `t`, returning the
/// chain's total duration and the sample.
#[verifier::rlimit(100)]
pub fn tp_seg(t: i64, segments: &[Segment]) -> (r: (i64, Out))
    ensures
        r.0 == spec_tp_seg(segments@, t as int).0,
        r.1 == spec_tp_seg(segments@, t as int).1,
{
    let mut num_segs: usize = 0;
    let mut outs = Out { pos: 0, vel: 0, acc: 0, jerk: 0 };
    let mut first: Option<Segment> = None;
    let mut i: usize = 0;
    while i < segments.len()
        invariant
            i <= segments@.len(),
            num_segs as int == count_in_range(segments@.take(i as int), t as int),
            outs == sum_outs(segments@.take(i as int), t as int),
            first == first_in_range(segments@.take(i as int), t as int),
        decreases segments@.len() - i,
    {
        proof {
            assert(segments@.take(i + 1).drop_last() =~= segments@.take(i as int));
            assert(segments@.take(i + 1).last() == segments@[i as int]);
            lemma_count_le_len(segments@.take(i as int), t as int);
        }
        let s = segments[i];
        if s.start_t <= t && fx_add(s.start_t, s.total_time) > t {
            num_segs = num_segs + 1;
            if let Some(o) = s.tp(t) {
                outs = outs.add(o);
            }
            if first.is_none() {
                first = Some(s);
            }
        }
        i = i + 1;
    }
    proof {
        assert(segments@.take(segments@.len() as int) =~= segments@);
    }
    if num_segs > 1 {
        proof {
            lemma_first_in_range_some(segments@, t as int);
        }
        let prev = match first {
            Some(s) => s,
            None => {
                vstd::pervasive::unreached()
            },
        };
        let decel_start = fx_sub(fx_add(prev.start_t, prev.total_time), prev.t_a);
        let delta = fx_sub(t, decel_start);
        let pos_at = match prev.tp(decel_start) {
            Some(o) => o.pos,
            None => 0,
        };
        let pos = fx_add(pos_at, fx_mul(outs.vel, delta));
        let total = if segments.len() > 0 {
            let last = segments[segments.len() - 1];
            fx_add(last.start_t, last.total_time)
        } else {
            0
        };
        (total, Out { pos, vel: outs.vel, acc: outs.acc, jerk: outs.jerk })
    } else {
        let total = if segments.len() > 0 {
            let last = segments[segments.len() - 1];
            fx_add(last.start_t, last.total_time)
        } else {
            0
        };
        (total, outs)
    }
}

/// Build the three-segment demonstration chain over the waypoints 0, 1, 3
/// and 7, overlapping adjacent ramps when asked to.
pub fn make_segments(lim: &Lim, enable_overlap: bool) -> (r: Vec<Segment>)
    ensures
        r@.len() == 3,
        r@[0] == spec_rest_new(0, 1_000_000, 0, 0, *lim),
        ({
            let s1 = spec_rest_new(0, 1_000_000, 0, 0, *lim);
            let s2 = spec_rest_new(1_000_000, 3_000_000, 0, 0, *lim);
            let overlap: int = if !enable_overlap {
                0
            } else if s1.t_a <= s2.t_a {
                s1.t_a as int
            } else {
                s2.t_a as int
            };
            r@[1] == (Segment {
                start_t: fxs_sub(fxs_add(s1.start_t as int, s1.total_time as int), overlap) as i64,
                ..s2
            })
        }),
        ({
            let s1 = spec_rest_new(0, 1_000_000, 0, 0, *lim);
            let s2 = spec_rest_new(1_000_000, 3_000_000, 0, 0, *lim);
            let s3 = spec_rest_new(3_000_000, 7_000_000, 0, 0, *lim);
            let overlap1: int = if !enable_overlap {
                0
            } else if s1.t_a <= s2.t_a {
                s1.t_a as int
            } else {
                s2.t_a as int
            };
            let start2 = fxs_sub(fxs_add(s1.start_t as int, s1.total_time as int), overlap1);
            let overlap2: int = if !enable_overlap {
                0
            } else if s2.t_a <= s3.t_a {
                s2.t_a as int
            } else {
                s3.t_a as int
            };
            r@[2] == (Segment {
                start_t: fxs_sub(fxs_add(start2, s2.total_time as int), overlap2) as i64,
                ..s3
            })
        }),
{
    let s1 = Segment::new(0, 1_000_000, 0, 0, lim);
    let mut s2 = Segment::new(1_000_000, 3_000_000, 0, 0, lim);
    let overlap_time = if !enable_overlap {
        0
    } else {
        fx_min(s1.t_a, s2.t_a)
    };
    s2.start_t = fx_sub(fx_add(s1.start_t, s1.total_time), overlap_time);
    let mut s3 = Segment::new(3_000_000, 7_000_000, 0, 0, lim);
    let overlap_time = if !enable_overlap {
        0
    } else {
        fx_min(s2.t_a, s3.t_a)
    };
    s3.start_t = fx_sub(fx_add(s2.start_t, s2.total_time), overlap_time);
    let mut v: Vec<Segment> = Vec::new();
    v.push(s1);
    v.push(s2);
    v.push(s3);
    v
}

} // verus!

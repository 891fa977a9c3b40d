//! Trapezoidal trajectory segments blended with circular arcs.
//!
//! A trajectory owns an ordered waypoint list and an ordered item list of
//! segments and blends. Waypoints are appended one at a time; from the
//! third waypoint on, each insertion builds a corner blend, shortens the
//! previously last segment to end where the arc starts, and appends a new
//! segment from the arc end to the new waypoint. Degenerate (colinear)
//! corners get no arc: both segments join at rest at the corner vertex
//! itself. The items always form one contiguous chain in time and
//! position, starting at time zero.

use vstd::prelude::*;

use crate::arc_blend::{spec_arc_new, spec_arc_tangent, ArcBlend};
use crate::errors::TrajError;
use crate::fx::{fx_add, fxs_add};
use crate::trapezoidal_non_zero_3d::{
    limits_ok, seg3_ok, spec_seg3_new, spec_seg3_tp, Lim, Out, Segment,
};
use crate::vec3::Coord3;

verus! {

/// One element of a trajectory: a straight synchronized segment or a
/// circular corner blend.
#[derive(Clone, Copy, Debug, PartialEq, Eq, Structural)]
pub enum Item {
    Linear(Segment),
    ArcBlend(ArcBlend),
}

/// Duration of one item.
pub open spec fn item_duration(it: Item) -> int {
    match it {
        Item::Linear(s) => s.total_time as int,
        Item::ArcBlend(b) => b.time as int,
    }
}

/// Start time of one item.
pub open spec fn item_start(it: Item) -> int {
    match it {
        Item::Linear(s) => s.start_t as int,
        Item::ArcBlend(b) => b.start_t as int,
    }
}

/// Position where one item begins.
pub open spec fn item_start_pos(it: Item) -> Coord3 {
    match it {
        Item::Linear(s) => s.q0,
        Item::ArcBlend(b) => b.arc_start,
    }
}

/// Position where one item ends.
pub open spec fn item_end_pos(it: Item) -> Coord3 {
    match it {
        Item::Linear(s) => s.q1,
        Item::ArcBlend(b) => b.arc_end,
    }
}

/// Two adjacent items are linked when the second begins exactly when and
/// where the first ends.
pub open spec fn linked(a: Item, b: Item) -> bool {
    item_start(b) == fxs_add(item_start(a), item_duration(a)) && item_start_pos(b) == item_end_pos(
        a,
    )
}

/// The item list forms one contiguous chain: it starts at time zero and
/// every item begins exactly when and where its predecessor ends.
pub open spec fn chain_ok(items: Seq<Item>) -> bool {
    &&& (items.len() > 0 ==> item_start(items[0]) == 0)
    &&& (forall|i: int|
        0 <= i < items.len() - 1 ==> #[trigger] linked(items[i], items[i + 1]))
}

/// Sum of the item durations, accumulated left to right.
pub open spec fn total_of(items: Seq<Item>) -> int
    decreases items.len(),
{
    if items.len() == 0 {
        0
    } else {
        fxs_add(total_of(items.drop_last()), item_duration(items.last()))
    }
}

/// The segment inside a linear item; arbitrary for a blend item.
pub open spec fn seg_of(it: Item) -> Segment {
    match it {
        Item::Linear(s) => s,
        Item::ArcBlend(_) => arbitrary(),
    }
}

/// The zero vector.
pub open spec fn zero3() -> Coord3 {
    Coord3 { x: 0, y: 0, z: 0 }
}

/// A trajectory through waypoints under shared limits.
#[derive(Clone, Debug)]
pub struct Trajectory {
    /// Waypoints inserted so far.
    pub points: Vec<Coord3>,
    /// Ordered segments and blends covering the whole motion.
    pub items: Vec<Item>,
    /// Per-axis limits every segment and blend is built under.
    pub limits: Lim,
    /// Maximum distance a blend arc may deviate from its corner waypoint.
    pub max_deviation: i64,
    /// Cached sum of all item durations.
    pub total_time: i64,
}

/// The corner blend built when `p` arrives while `ls` is the last segment,
/// before its start time is fixed.
pub open spec fn corner_blend(ls: Segment, p: Coord3, max_dev: int, limits: Lim) -> ArcBlend {
    spec_arc_new(ls.q0, ls.q1, p, max_dev, 0, limits)
}

/// Junction velocity where the shortened segment hands over to the blend:
/// the arc's unit tangent at its start, or rest for a degenerate corner.
pub open spec fn corner_vstart(b: ArcBlend) -> Coord3 {
    if b.is_colinear {
        zero3()
    } else {
        spec_arc_tangent(b, b.arc_start)
    }
}

/// Junction velocity where the blend hands over to the appended segment:
/// the arc's unit tangent at its end, or rest for a degenerate corner.
pub open spec fn corner_vend(b: ArcBlend) -> Coord3 {
    if b.is_colinear {
        zero3()
    } else {
        spec_arc_tangent(b, b.arc_end)
    }
}

/// Where the shortened segment hands over: the arc start, or the corner
/// vertex itself for a degenerate corner, which keeps the chain of items
/// contiguous when the arc is dropped.
pub open spec fn corner_join_start(ls: Segment, b: ArcBlend) -> Coord3 {
    if b.is_colinear {
        ls.q1
    } else {
        b.arc_start
    }
}

/// Where the appended segment takes over: the arc end, or the corner
/// vertex for a degenerate corner.
pub open spec fn corner_join_end(ls: Segment, b: ArcBlend) -> Coord3 {
    if b.is_colinear {
        ls.q1
    } else {
        b.arc_end
    }
}

/// The shortened replacement of the last segment: same entry conditions,
/// but ending at the arc start with the blend's start velocity.
pub open spec fn corner_replaced(ls: Segment, p: Coord3, max_dev: int, limits: Lim) -> Segment {
    let b = corner_blend(ls, p, max_dev, limits);
    spec_seg3_new(ls.q0, corner_join_start(ls, b), ls.v0, corner_vstart(b), ls.start_t as int, limits)
}

/// The corner blend with its start time fixed to the end of the shortened
/// segment.
pub open spec fn corner_timed_blend(ls: Segment, p: Coord3, max_dev: int, limits: Lim) -> ArcBlend {
    let b = corner_blend(ls, p, max_dev, limits);
    let rs = corner_replaced(ls, p, max_dev, limits);
    ArcBlend { start_t: fxs_add(rs.start_t as int, rs.total_time as int) as i64, ..b }
}

/// The new final segment: from the arc end (or the vertex, for a dropped
/// degenerate corner) to the new waypoint, entering with the blend's end
/// velocity and stopping there. A dropped corner inserts no arc time.
pub open spec fn corner_tail(ls: Segment, p: Coord3, max_dev: int, limits: Lim) -> Segment {
    let b = corner_blend(ls, p, max_dev, limits);
    let tb = corner_timed_blend(ls, p, max_dev, limits);
    spec_seg3_new(
        corner_join_end(ls, b),
        p,
        corner_vend(b),
        zero3(),
        fxs_add(
            tb.start_t as int,
            if tb.is_colinear {
                0
            } else {
                tb.time as int
            },
        ),
        limits,
    )
}

/// Whether both segments around the corner are feasible.
pub open spec fn push2_ok(ls: Segment, p: Coord3, max_dev: int, limits: Lim) -> bool {
    let b = corner_blend(ls, p, max_dev, limits);
    seg3_ok(ls.q0, corner_join_start(ls, b), ls.v0, corner_vstart(b), limits) && seg3_ok(
        corner_join_end(ls, b),
        p,
        corner_vend(b),
        zero3(),
        limits,
    )
}

/// The item list after stitching the corner in: last segment replaced by
/// its shortened copy, the blend appended unless the corner is degenerate,
/// then the new final segment.
pub open spec fn push2_items(items: Seq<Item>, p: Coord3, max_dev: int, limits: Lim) -> Seq<Item> {
    let ls = seg_of(items.last());
    let tb = corner_timed_blend(ls, p, max_dev, limits);
    let base = items.update(items.len() - 1, Item::Linear(corner_replaced(ls, p, max_dev, limits)));
    if tb.is_colinear {
        base.push(Item::Linear(corner_tail(ls, p, max_dev, limits)))
    } else {
        base.push(Item::ArcBlend(tb)).push(Item::Linear(corner_tail(ls, p, max_dev, limits)))
    }
}

/// Stitching a corner into a contiguous chain leaves it contiguous: the
/// shortened segment keeps its predecessor's link, the blend (when kept)
/// starts exactly at the shortened segment's end, and the new final
/// segment starts exactly at the blend's end (or at the vertex for a
/// dropped degenerate corner).
#[verifier::rlimit(100)]
proof fn lemma_chain_push2(items: Seq<Item>, p: Coord3, max_dev: int, limits: Lim)
    requires
        chain_ok(items),
        items.len() >= 1,
        items.last() matches Item::Linear(_),
    ensures
        chain_ok(push2_items(items, p, max_dev, limits)),
{
    let n = items.len() as int;
    let ls = seg_of(items.last());
    let b = corner_blend(ls, p, max_dev, limits);
    let rs = corner_replaced(ls, p, max_dev, limits);
    let tb = corner_timed_blend(ls, p, max_dev, limits);
    let tl = corner_tail(ls, p, max_dev, limits);
    let out = push2_items(items, p, max_dev, limits);
    assert(item_start(Item::Linear(rs)) == item_start(items[n - 1]));
    assert(item_start_pos(Item::Linear(rs)) == item_start_pos(items[n - 1]));
    if n == 1 {
        assert(item_start(out[0]) == 0);
    } else {
        assert(out[0] == items[0]);
    }
    assert(linked(Item::Linear(rs), Item::ArcBlend(tb)) || tb.is_colinear);
    assert(tb.is_colinear ==> linked(Item::Linear(rs), Item::Linear(tl)));
    assert(!tb.is_colinear ==> linked(Item::ArcBlend(tb), Item::Linear(tl)));
    assert forall|i: int| 0 <= i < out.len() - 1 implies #[trigger] linked(out[i], out[i + 1]) by {
        if i < n - 2 {
            assert(linked(items[i], items[i + 1]));
            assert(out[i] == items[i]);
            assert(out[i + 1] == items[i + 1]);
        } else if i == n - 2 {
            assert(linked(items[i], items[i + 1]));
            assert(out[i] == items[i]);
            assert(out[i + 1] == Item::Linear(rs));
        } else if i == n - 1 {
            assert(out[i] == Item::Linear(rs));
        } else {
            assert(i == n && !tb.is_colinear);
            assert(out[i] == Item::ArcBlend(tb));
            assert(out[i + 1] == Item::Linear(tl));
        }
    }
}

/// A trajectory of three non-colinear waypoints holds two straight
/// segments around one arc, and its cached duration is the sum of those
/// three durations.
pub proof fn lemma_three_item_duration(traj: Trajectory)
    requires
        traj.wf(),
        traj.items@.len() == 3,
    ensures
        traj.total_time as int == fxs_add(
            fxs_add(item_duration(traj.items@[0]), item_duration(traj.items@[1])),
            item_duration(traj.items@[2]),
        ),
{
    let s = traj.items@;
    let s2 = s.drop_last();
    let s1 = s2.drop_last();
    let s0 = s1.drop_last();
    assert(s0.len() == 0);
    assert(total_of(s0) == 0);
    assert(s1.last() == s[0]);
    assert(total_of(s1) == fxs_add(0, item_duration(s[0])));
    assert(s2.last() == s[1]);
    assert(total_of(s2) == fxs_add(total_of(s1), item_duration(s[1])));
    assert(s.last() == s[2]);
    assert(total_of(s) == fxs_add(total_of(s2), item_duration(s[2])));
}

/// Sampling is idempotent: the evaluator is a function of the trajectory
/// value and the query time alone, so two samples of an unmodified
/// trajectory at the same time are identical.
pub proof fn lemma_tp_idempotent(
    traj: Trajectory,
    t: int,
    r1: Option<(Out, bool)>,
    r2: Option<(Out, bool)>,
)
    requires
        r1 == spec_traj_tp(traj, t),
        r2 == spec_traj_tp(traj, t),
    ensures
        r1 == r2,
{
}

/// The first item whose own evaluator accepts `t`, scanned in order, with
/// a tag saying whether that item is an arc.
pub open spec fn first_match(items: Seq<Item>, t: int) -> Option<(Out, bool)>
    decreases items.len(),
{
    if items.len() == 0 {
        None
    } else {
        match items[0] {
            Item::Linear(s) => match spec_seg3_tp(s, t) {
                Some(op) => Some((op.0, false)),
                None => first_match(items.drop_first(), t),
            },
            Item::ArcBlend(b) => match crate::arc_blend::spec_arc_tp(b, t) {
                Some(o) => Some((o, true)),
                None => first_match(items.drop_first(), t),
            },
        }
    }
}

/// The sample of a whole trajectory at `t`: nothing outside
/// `[0, total_time]`, otherwise the first matching item's sample.
pub open spec fn spec_traj_tp(traj: Trajectory, t: int) -> Option<(Out, bool)> {
    if t > traj.total_time as int || t < 0 {
        None
    } else {
        first_match(traj.items@, t)
    }
}

impl Trajectory {
    /// Well-formedness: positive limits; the cached duration is the sum of
    /// the item durations; before the second waypoint there are no items,
    /// and from then on the item list ends with a straight segment; and the
    /// items form one contiguous chain in time and position, starting at
    /// time zero.
    pub open spec fn wf(&self) -> bool {
        &&& limits_ok(self.limits)
        &&& self.total_time as int == total_of(self.items@)
        &&& self.points@.len() <= 1 ==> self.items@.len() == 0
        &&& self.points@.len() >= 2 ==> (self.items@.len() >= 1 && self.items@.last() matches Item::Linear(_))
        &&& chain_ok(self.items@)
    }

    /// An empty trajectory with default limits and corner deviation.
    pub fn new() -> (r: Trajectory)
        ensures
            r.wf(),
            r.points@.len() == 0,
            r.items@.len() == 0,
            r.total_time == 0,
            r.max_deviation == 500_000i64,
            r.limits == (Lim {
                vel: Coord3 { x: 5_000_000i64, y: 5_000_000i64, z: 5_000_000i64 },
                acc: Coord3 { x: 10_000_000i64, y: 10_000_000i64, z: 10_000_000i64 },
            }),
    {
        Trajectory {
            points: Vec::new(),
            items: Vec::new(),
            limits: Lim {
                vel: Coord3 { x: 5_000_000, y: 5_000_000, z: 5_000_000 },
                acc: Coord3 { x: 10_000_000, y: 10_000_000, z: 10_000_000 },
            },
            max_deviation: 500_000,
            total_time: 0,
        }
    }

    /// Append a waypoint, extending the item list and re-timing as needed.
    ///
    /// The first waypoint is only stored; the second produces the first
    /// segment, at rest on both ends; each later one blends the corner at
    /// the previously last waypoint. A corner within the colinearity
    /// tolerance gets no arc: both adjacent segments join at the corner
    /// vertex itself, at rest, with no arc time inserted, so the chain
    /// stays contiguous. On an error the trajectory is left unchanged.
    #[verifier::rlimit(100)]
    pub fn push_point(&mut self, new_point: Coord3) -> (r: Result<(), TrajError>)
        requires
            old(self).wf(),
        ensures
            final(self).wf(),
            final(self).limits == old(self).limits,
            final(self).max_deviation == old(self).max_deviation,
            r matches Ok(_) ==> final(self).points@ == old(self).points@.push(new_point),
            r matches Err(e) ==> *final(self) == *old(self) && e == TrajError::Infeasible,
            old(self).points@.len() == 0 ==> (r matches Ok(_) && final(self).items@ == old(
                self,
            ).items@),
            old(self).points@.len() == 1 ==> {
                &&& ((r matches Ok(_)) <==> seg3_ok(
                    old(self).points@[0],
                    new_point,
                    zero3(),
                    zero3(),
                    old(self).limits,
                ))
                &&& (r matches Ok(_) ==> final(self).items@ == old(self).items@.push(
                    Item::Linear(
                        spec_seg3_new(
                            old(self).points@[0],
                            new_point,
                            zero3(),
                            zero3(),
                            0,
                            old(self).limits,
                        ),
                    ),
                ))
            },
            old(self).points@.len() >= 2 ==> {
                &&& ((r matches Ok(_)) <==> push2_ok(
                    seg_of(old(self).items@.last()),
                    new_point,
                    old(self).max_deviation as int,
                    old(self).limits,
                ))
                &&& (r matches Ok(_) ==> final(self).items@ == push2_items(
                    old(self).items@,
                    new_point,
                    old(self).max_deviation as int,
                    old(self).limits,
                ))
            },
    {
        let n = self.points.len();
        if n == 0 {
            self.points.push(new_point);
            proof {
                assert(self.items@ =~= old(self).items@);
            }
            return Ok(());
        }
        if n == 1 {
            let p0 = self.points[0];
            let segment = match Segment::new(
                p0,
                new_point,
                Coord3::zeros(),
                Coord3::zeros(),
                0,
                &self.limits,
            ) {
                Ok(s) => s,
                Err(_) => {
                    return Err(TrajError::Infeasible);
                },
            };
            self.items.push(Item::Linear(segment));
            self.points.push(new_point);
            self.recompute_total();
            proof {
                assert(self.items@.len() == 1);
                assert(item_start(self.items@[0]) == 0);
            }
            return Ok(());
        }
        let idx = self.items.len() - 1;
        let it = self.items[idx];
        let ls: Segment = match it {
            Item::Linear(s) => s,
            Item::ArcBlend(_) => {
                proof {
                    assert(self.items@[idx as int] == self.items@.last());
                }
                vstd::pervasive::unreached()
            },
        };
        let blend0 = match ArcBlend::new(
            ls.q0,
            ls.q1,
            new_point,
            self.max_deviation,
            0,
            self.limits,
        ) {
            Ok(b) => b,
            Err(_) => {
                vstd::pervasive::unreached()
            },
        };
        let vstart = if blend0.is_colinear {
            Coord3::zeros()
        } else {
            blend0.start_tangent()
        };
        let vend = if blend0.is_colinear {
            Coord3::zeros()
        } else {
            blend0.end_tangent()
        };
        let join_start = if blend0.is_colinear {
            ls.q1
        } else {
            blend0.arc_start
        };
        let join_end = if blend0.is_colinear {
            ls.q1
        } else {
            blend0.arc_end
        };
        let replaced = match Segment::new(
            ls.q0,
            join_start,
            ls.v0,
            vstart,
            ls.start_t,
            &self.limits,
        ) {
            Ok(s) => s,
            Err(_) => {
                return Err(TrajError::Infeasible);
            },
        };
        let blend = ArcBlend { start_t: fx_add(replaced.start_t, replaced.total_time), ..blend0 };
        let tail_start = if blend.is_colinear {
            blend.start_t
        } else {
            fx_add(blend.start_t, blend.time)
        };
        let tail = match Segment::new(
            join_end,
            new_point,
            vend,
            Coord3::zeros(),
            tail_start,
            &self.limits,
        ) {
            Ok(s) => s,
            Err(_) => {
                return Err(TrajError::Infeasible);
            },
        };
        self.items[idx] = Item::Linear(replaced);
        if !blend.is_colinear {
            self.items.push(Item::ArcBlend(blend));
        }
        self.items.push(Item::Linear(tail));
        self.points.push(new_point);
        self.recompute_total();
        proof {
            assert(self.items@ =~= push2_items(
                old(self).items@,
                new_point,
                old(self).max_deviation as int,
                old(self).limits,
            ));
            lemma_chain_push2(
                old(self).items@,
                new_point,
                old(self).max_deviation as int,
                old(self).limits,
            );
        }
        Ok(())
    }

    /// Sample the trajectory at time `t`. The boolean tags whether the
    /// matching item is an arc blend.
    #[verifier::rlimit(100)]
    pub fn tp(&self, t: i64) -> (r: Option<(Out, bool)>)
        ensures
            r == spec_traj_tp(*self, t as int),
    {
        if t > self.total_time || t < 0 {
            return None;
        }
        proof {
            assert(self.items@.skip(0) =~= self.items@);
        }
        let mut i: usize = 0;
        while i < self.items.len()
            invariant
                i <= self.items@.len(),
                t <= self.total_time && t >= 0,
                first_match(self.items@, t as int) == first_match(
                    self.items@.skip(i as int),
                    t as int,
                ),
            decreases self.items@.len() - i,
        {
            proof {
                assert(self.items@.skip(i as int)[0] == self.items@[i as int]);
            }
            match &self.items[i] {
                Item::Linear(s) => {
                    if let Some((o, _phase)) = s.tp(t) {
                        return Some((o, false));
                    }
                },
                Item::ArcBlend(b) => {
                    if let Some(o) = b.tp(t) {
                        return Some((o, true));
                    }
                },
            }
            proof {
                assert(self.items@.skip(i as int).drop_first() =~= self.items@.skip(i as int + 1));
            }
            i = i + 1;
        }
        proof {
            assert(self.items@.skip(self.items@.len() as int) =~= Seq::<Item>::empty());
        }
        None
    }

    /// Recompute the cached total duration as the sum of item durations.
    fn recompute_total(&mut self)
        ensures
            final(self).total_time as int == total_of(final(self).items@),
            final(self).points == old(self).points,
            final(self).items == old(self).items,
            final(self).limits == old(self).limits,
            final(self).max_deviation == old(self).max_deviation,
    {
        let mut total: i64 = 0;
        let mut i: usize = 0;
        while i < self.items.len()
            invariant
                i <= self.items@.len(),
                total as int == total_of(self.items@.take(i as int)),
            decreases self.items@.len() - i,
        {
            let d = match &self.items[i] {
                Item::Linear(s) => s.total_time,
                Item::ArcBlend(b) => b.time,
            };
            proof {
                assert(self.items@.take(i + 1).drop_last() =~= self.items@.take(i as int));
                assert(self.items@.take(i + 1).last() == self.items@[i as int]);
            }
            total = fx_add(total, d);
            i = i + 1;
        }
        proof {
            assert(self.items@.take(self.items@.len() as int) =~= self.items@);
        }
        self.total_time = total;
    }
}

} // verus!

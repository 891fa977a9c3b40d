//! The trajectory assembler: waypoint insertion, duration bookkeeping and
//! whole-chain sampling.

use trajgen::fx::FX_ONE;
use trajgen::segments_blends::{Item, Trajectory};
use trajgen::vec3::Coord3;

fn fx(units: i64) -> i64 {
    units * FX_ONE
}

fn item_duration(it: &Item) -> i64 {
    match it {
        Item::Linear(s) => s.total_time,
        Item::ArcBlend(b) => b.time,
    }
}

#[test]
fn three_points() {
    let p1 = Coord3::new(0, 0, 0);
    let p2 = Coord3::new(fx(3), fx(2), 0);
    let p3 = Coord3::new(fx(5), fx(1), 0);

    let mut traj = Trajectory::new();

    traj.push_point(p1).unwrap();
    traj.push_point(p2).unwrap();
    traj.push_point(p3).unwrap();

    assert_eq!(traj.points.len(), 3);
    assert_eq!(traj.items.len(), 3);
    assert!(matches!(traj.items[0], Item::Linear(_)));
    assert!(matches!(traj.items[1], Item::ArcBlend(_)));
    assert!(matches!(traj.items[2], Item::Linear(_)));
}

// The cached duration is the sum of the item durations, and samples are
// tagged with whether they fall on the arc.
#[test]
fn duration_sum_and_arc_tagging() {
    let mut traj = Trajectory::new();
    traj.push_point(Coord3::new(0, 0, 0)).unwrap();
    traj.push_point(Coord3::new(fx(3), fx(2), 0)).unwrap();
    traj.push_point(Coord3::new(fx(5), fx(1), 0)).unwrap();

    let sum: i64 = traj.items.iter().map(item_duration).sum();
    assert_eq!(traj.total_time, sum);
    assert!(traj.total_time > 0);

    let (blend_start, blend_time) = match &traj.items[1] {
        Item::ArcBlend(b) => (b.start_t, b.time),
        Item::Linear(_) => panic!("expected the arc in the middle"),
    };
    assert!(blend_time > 0);

    // Inside the first segment: not an arc.
    let (_, is_arc) = traj.tp(blend_start / 2).unwrap();
    assert!(!is_arc);
    // Inside the blend span: the arc answers.
    let (_, is_arc) = traj.tp(blend_start + blend_time / 2).unwrap();
    assert!(is_arc);
}

// Sampling the same unmodified trajectory twice at the same time gives
// identical results.
#[test]
fn idempotent_sampling() {
    let mut traj = Trajectory::new();
    traj.push_point(Coord3::new(0, 0, 0)).unwrap();
    traj.push_point(Coord3::new(fx(3), fx(2), 0)).unwrap();
    traj.push_point(Coord3::new(fx(5), fx(1), 0)).unwrap();
    let steps = 20;
    for k in 0..=steps {
        let t = traj.total_time * k / steps;
        assert_eq!(traj.tp(t), traj.tp(t));
    }
}

#[test]
fn out_of_range_sampling() {
    let mut traj = Trajectory::new();
    assert!(traj.tp(0).is_none() || traj.total_time == 0);
    traj.push_point(Coord3::new(0, 0, 0)).unwrap();
    traj.push_point(Coord3::new(fx(1), 0, 0)).unwrap();
    assert!(traj.tp(-1).is_none());
    assert!(traj.tp(traj.total_time + 1).is_none());
    assert!(traj.tp(0).is_some());
    assert!(traj.tp(traj.total_time).is_some());
}

// A colinear corner inserts no arc: the corner stays a stop vertex.
#[test]
fn colinear_corner_drops_blend() {
    let mut traj = Trajectory::new();
    traj.push_point(Coord3::new(0, 0, 0)).unwrap();
    traj.push_point(Coord3::new(fx(2), 0, 0)).unwrap();
    traj.push_point(Coord3::new(fx(5), 0, 0)).unwrap();
    assert_eq!(traj.items.len(), 2);
    assert!(matches!(traj.items[0], Item::Linear(_)));
    assert!(matches!(traj.items[1], Item::Linear(_)));
    let sum: i64 = traj.items.iter().map(item_duration).sum();
    assert_eq!(traj.total_time, sum);
}

// The first waypoint alone produces no motion; the second produces one
// segment from rest to rest.
#[test]
fn incremental_growth() {
    let mut traj = Trajectory::new();
    traj.push_point(Coord3::new(0, 0, 0)).unwrap();
    assert_eq!(traj.items.len(), 0);
    assert_eq!(traj.total_time, 0);
    traj.push_point(Coord3::new(fx(1), fx(1), 0)).unwrap();
    assert_eq!(traj.items.len(), 1);
    let seg = match &traj.items[0] {
        Item::Linear(s) => *s,
        Item::ArcBlend(_) => panic!("expected a segment"),
    };
    assert_eq!(seg.q0(), Coord3::new(0, 0, 0));
    assert_eq!(seg.q1(), Coord3::new(fx(1), fx(1), 0));
    assert_eq!(seg.v0(), Coord3::zeros());
    assert_eq!(seg.v1(), Coord3::zeros());
}

// The shortened segment ends where the arc starts, and the appended one
// begins where it ends.
#[test]
fn corner_stitching() {
    let mut traj = Trajectory::new();
    traj.push_point(Coord3::new(0, 0, 0)).unwrap();
    traj.push_point(Coord3::new(fx(3), fx(2), 0)).unwrap();
    traj.push_point(Coord3::new(fx(5), fx(1), 0)).unwrap();
    let first = match &traj.items[0] {
        Item::Linear(s) => *s,
        Item::ArcBlend(_) => panic!("expected a segment"),
    };
    let blend = match &traj.items[1] {
        Item::ArcBlend(b) => *b,
        Item::Linear(_) => panic!("expected the arc"),
    };
    let tail = match &traj.items[2] {
        Item::Linear(s) => *s,
        Item::ArcBlend(_) => panic!("expected a segment"),
    };
    assert_eq!(first.q1(), blend.arc_start);
    assert_eq!(tail.q0(), blend.arc_end);
    assert_eq!(blend.start_t, first.start_t + first.total_time);
    assert_eq!(tail.start_t, blend.start_t + blend.time);
    assert_eq!(tail.v1(), Coord3::zeros());
}

// The whole-trajectory sample at time zero starts at the first waypoint,
// at rest.
#[test]
fn starts_at_first_waypoint() {
    let mut traj = Trajectory::new();
    traj.push_point(Coord3::new(fx(1), fx(2), 0)).unwrap();
    traj.push_point(Coord3::new(fx(4), fx(2), 0)).unwrap();
    traj.push_point(Coord3::new(fx(5), fx(4), 0)).unwrap();
    let (out, is_arc) = traj.tp(0).unwrap();
    assert!(!is_arc);
    assert_eq!(out.pos, Coord3::new(fx(1), fx(2), 0));
    assert_eq!(out.vel, Coord3::zeros());
}

// A corner bent within the colinearity tolerance also joins at the
// vertex: no arc, no time gap, both segments meet at the corner point.
#[test]
fn near_colinear_joins_at_vertex() {
    let corner = Coord3::new(fx(1), 0, 0);
    let mut traj = Trajectory::new();
    traj.push_point(Coord3::new(0, 0, 0)).unwrap();
    traj.push_point(corner).unwrap();
    traj.push_point(Coord3::new(fx(2), 500, 0)).unwrap();
    assert_eq!(traj.items.len(), 2);
    let first = match &traj.items[0] {
        Item::Linear(s) => *s,
        Item::ArcBlend(_) => panic!("expected a segment"),
    };
    let tail = match &traj.items[1] {
        Item::Linear(s) => *s,
        Item::ArcBlend(_) => panic!("expected a segment"),
    };
    assert_eq!(first.q1(), corner);
    assert_eq!(tail.q0(), corner);
    assert_eq!(tail.start_t, first.start_t + first.total_time);
    // Every in-range time is covered by some item.
    let steps = 20;
    for k in 0..=steps {
        let t = traj.total_time * k / steps;
        assert!(traj.tp(t).is_some());
    }
}

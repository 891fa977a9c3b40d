//! Chains of rest-to-rest segments with overlapping ramps.

use trajgen::fx::FX_ONE;
use trajgen::trapezoidal::{make_segments, tp_seg, Lim};

fn fx(units: i64) -> i64 {
    units * FX_ONE
}

#[test]
fn multi() {
    let lim = Lim { vel: fx(1), acc: fx(2), jerk: 0 };
    let segments = make_segments(&lim, true);
    assert_eq!(segments.len(), 3);
    let (total, _) = tp_seg(0, &segments);
    assert!(total > 0);
}

// Without overlap the segments run back to back; their spans abut.
#[test]
fn segments_abut_without_overlap() {
    let lim = Lim { vel: fx(1), acc: fx(2), jerk: 0 };
    let segments = make_segments(&lim, false);
    assert_eq!(segments[0].start_t, 0);
    assert_eq!(segments[1].start_t, segments[0].start_t + segments[0].total_time);
    assert_eq!(segments[2].start_t, segments[1].start_t + segments[1].total_time);
}

// With overlap each segment starts one ramp early, and the chain's total
// duration shrinks accordingly.
#[test]
fn overlap_shortens_chain() {
    let lim = Lim { vel: fx(1), acc: fx(2), jerk: 0 };
    let plain = make_segments(&lim, false);
    let overlapped = make_segments(&lim, true);
    let (total_plain, _) = tp_seg(0, &plain);
    let (total_overlapped, _) = tp_seg(0, &overlapped);
    assert!(total_overlapped < total_plain);
}

// Inside an overlap window the summed velocity of both profiles is
// reported, and the position is integrated from it.
#[test]
fn overlap_sums_velocities() {
    let lim = Lim { vel: fx(1), acc: fx(2), jerk: 0 };
    let segments = make_segments(&lim, true);
    // The second segment starts before the first ends.
    let overlap_start = segments[1].start_t;
    let first_end = segments[0].start_t + segments[0].total_time;
    assert!(overlap_start < first_end);
    let mid = (overlap_start + first_end) / 2;
    let (_, out) = tp_seg(mid, &segments);
    assert!(out.vel > 0);
    let (_, before) = tp_seg(overlap_start - 1_000, &segments);
    assert!(before.vel > 0);
}

#[test]
fn empty_chain() {
    let segments: Vec<trajgen::trapezoidal::Segment> = Vec::new();
    let (total, out) = tp_seg(0, &segments);
    assert_eq!(total, 0);
    assert_eq!(out.pos, 0);
    assert_eq!(out.vel, 0);
}

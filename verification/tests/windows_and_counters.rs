use wideboi::decimator::Decimator;
use wideboi::ring::SampleRing;
use wideboi::scope::{interleave_pairs, Goniometer, GONIO_DECIMATE, GONIO_POINTS};

fn window_contents(w: &SampleRing<i32>) -> Vec<i32> {
    (0..w.len()).map(|k| w.get(k)).collect()
}

#[test]
fn ring_starts_filled() {
    let w = SampleRing::new(4, 7);
    assert_eq!(w.len(), 4);
    assert_eq!(window_contents(&w), vec![7, 7, 7, 7]);
}

#[test]
fn ring_push_evicts_oldest() {
    let mut w = SampleRing::new(3, 0);
    assert_eq!(w.push(1), 0);
    assert_eq!(w.push(2), 0);
    assert_eq!(w.push(3), 0);
    assert_eq!(window_contents(&w), vec![1, 2, 3]);
    assert_eq!(w.push(4), 1);
    assert_eq!(window_contents(&w), vec![2, 3, 4]);
    assert_eq!(w.push(5), 2);
    assert_eq!(w.push(6), 3);
    assert_eq!(w.push(7), 4);
    assert_eq!(window_contents(&w), vec![5, 6, 7]);
}

#[test]
fn ring_keeps_latest_samples() {
    // Law: after pushing xs, the window is the last len() of start ++ xs.
    let mut w = SampleRing::new(5, -1);
    let xs: Vec<i32> = (0..23).collect();
    for &x in &xs {
        w.push(x);
    }
    assert_eq!(window_contents(&w), vec![18, 19, 20, 21, 22]);
}

#[test]
fn ring_fill_resets() {
    let mut w = SampleRing::new(3, 0);
    w.push(9);
    w.push(8);
    w.fill(0);
    assert_eq!(window_contents(&w), vec![0, 0, 0]);
    w.push(1);
    assert_eq!(window_contents(&w), vec![0, 0, 1]);
}

#[test]
fn ring_copy_to_short_and_long() {
    let mut w = SampleRing::new(3, 0);
    for x in 1..=5 {
        w.push(x);
    }
    let mut short = [0; 2];
    w.copy_to(&mut short);
    assert_eq!(short, [3, 4]);
    let mut long = [-1; 5];
    w.copy_to(&mut long);
    assert_eq!(long, [3, 4, 5, -1, -1]);
}

#[test]
fn ring_of_one() {
    let mut w = SampleRing::new(1, 'a');
    assert_eq!(w.push('b'), 'a');
    assert_eq!(w.push('c'), 'b');
    assert_eq!(w.get(0), 'c');
}

#[test]
fn decimator_fires_every_factor() {
    let mut d = Decimator::new(4);
    let fired: Vec<bool> = (0..12).map(|_| d.tick()).collect();
    assert_eq!(
        fired,
        vec![false, false, false, true, false, false, false, true, false, false, false, true]
    );
    assert_eq!(d.phase(), 0);
}

#[test]
fn decimator_count_matches_law() {
    // Law: from phase 0, n ticks fire n / factor times and leave phase n % factor.
    let mut d = Decimator::new(32);
    let fires = (0..1000).filter(|_| d.tick()).count();
    assert_eq!(fires, 1000 / 32);
    assert_eq!(d.phase(), 1000 % 32);
}

#[test]
fn decimator_of_two_paces_every_other_block() {
    let mut d = Decimator::new(2);
    assert!(!d.tick());
    assert!(d.tick());
    assert!(!d.tick());
    assert!(d.tick());
    assert_eq!(d.factor(), 2);
}

#[test]
fn decimator_reset_restarts() {
    let mut d = Decimator::new(3);
    d.tick();
    d.tick();
    d.reset();
    assert!(!d.tick());
    assert!(!d.tick());
    assert!(d.tick());
}

#[test]
fn goniometer_keeps_one_frame_in_32() {
    let mut g = Goniometer::new((0, 0));
    let mut kept = 0;
    for i in 1..=(GONIO_DECIMATE * 3) {
        if g.record((i as i32, -(i as i32))) {
            kept += 1;
        }
    }
    assert_eq!(kept, 3);
    let mut out = vec![(9, 9); GONIO_POINTS];
    g.copy_to(&mut out);
    assert_eq!(out[GONIO_POINTS - 3], (32, -32));
    assert_eq!(out[GONIO_POINTS - 2], (64, -64));
    assert_eq!(out[GONIO_POINTS - 1], (96, -96));
    assert_eq!(out[0], (0, 0));
}

#[test]
fn goniometer_reset_clears() {
    let mut g = Goniometer::new((0u8, 0u8));
    for _ in 0..(GONIO_DECIMATE - 1) {
        g.record((1, 1));
    }
    g.reset((0, 0));
    // The count restarted: 31 more frames do not reach a capture.
    for _ in 0..(GONIO_DECIMATE - 1) {
        assert!(!g.record((2, 2)));
    }
    assert!(g.record((3, 3)));
    let mut out = [(7u8, 7u8); 2];
    g.copy_to(&mut out);
    assert_eq!(out, [(0, 0), (0, 0)]);
}

#[test]
fn interleave_flattens_pairs() {
    assert_eq!(interleave_pairs(&[(1, 2), (3, 4), (5, 6)]), vec![1, 2, 3, 4, 5, 6]);
    let empty: [(u8, u8); 0] = [];
    assert!(interleave_pairs(&empty).is_empty());
}

#[test]
fn goniometer_run_shows_last_kept_frames() {
    // From new(origin): the trace is the last GONIO_POINTS of
    // origin x GONIO_POINTS followed by the frames at positions 31, 63, ...
    for total in [0usize, 31, 32, 100, GONIO_DECIMATE * 300 + 17] {
        let mut g = Goniometer::new(-1i64);
        let frames: Vec<i64> = (0..total as i64).collect();
        for &f in &frames {
            g.record(f);
        }
        let mut expected: Vec<i64> = vec![-1; GONIO_POINTS];
        expected.extend(frames.iter().copied().skip(GONIO_DECIMATE - 1).step_by(GONIO_DECIMATE));
        let expected = expected[expected.len() - GONIO_POINTS..].to_vec();
        let mut out = vec![0i64; GONIO_POINTS];
        g.copy_to(&mut out);
        assert_eq!(out, expected, "after {} frames", total);
    }
}

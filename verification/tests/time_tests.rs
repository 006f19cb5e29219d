use xrshell::time::{TimeDelta, TimeTracker, DEF_DELTA_NANOS, MAX_DELTA_NANOS};

#[test]
fn first_call_yields_first_frame() {
    let mut t = TimeTracker::new();
    assert!(matches!(t.delta(123_456_789), TimeDelta::FirstFrame));
    assert_eq!(t.real_time_nanos(), 0);
}

#[test]
fn first_call_yields_first_frame_for_any_baseline() {
    for start in [i64::MIN, -1, 0, 1, i64::MAX] {
        let mut t = TimeTracker::new();
        assert!(matches!(t.delta(start), TimeDelta::FirstFrame));
    }
}

#[test]
fn default_tracker_matches_new() {
    let mut t = TimeTracker::default();
    assert!(matches!(t.delta(42), TimeDelta::FirstFrame));
    assert_eq!(t.real_time_nanos(), 0);
}

#[test]
fn exact_delta_within_bounds() {
    let mut t = TimeTracker::new();
    t.delta(1_000);
    match t.delta(1_000) {
        TimeDelta::Delta { nanos } => assert_eq!(nanos, 0),
        _ => panic!("expected a delta"),
    }
    match t.delta(1_005) {
        TimeDelta::Delta { nanos } => assert_eq!(nanos, 5),
        _ => panic!("expected a delta"),
    }
    match t.delta(1_005 + MAX_DELTA_NANOS) {
        TimeDelta::Delta { nanos } => assert_eq!(nanos, MAX_DELTA_NANOS),
        _ => panic!("expected a delta"),
    }
    assert_eq!(t.real_time_nanos(), 5 + MAX_DELTA_NANOS);
}

#[test]
fn delta_in_seconds_is_derived_from_nanos() {
    let mut t = TimeTracker::new();
    t.delta(0);
    match t.delta(16_666_666) {
        TimeDelta::Delta { nanos } => {
            let secs = (nanos as f32) / 1e9;
            assert!((secs - 0.016_666_666).abs() < 1e-9);
        }
        _ => panic!("expected a delta"),
    }
}

#[test]
fn negative_delta_clamps_to_default() {
    let mut t = TimeTracker::new();
    t.delta(1_000);
    match t.delta(999) {
        TimeDelta::Delta { nanos } => assert_eq!(nanos, DEF_DELTA_NANOS),
        _ => panic!("expected a delta"),
    }
}

#[test]
fn oversized_delta_clamps_to_default() {
    let mut t = TimeTracker::new();
    t.delta(0);
    match t.delta(MAX_DELTA_NANOS + 1) {
        TimeDelta::Delta { nanos } => assert_eq!(nanos, DEF_DELTA_NANOS),
        _ => panic!("expected a delta"),
    }
}

#[test]
fn wrapping_timestamp_pair_does_not_panic() {
    let mut t = TimeTracker::new();
    t.delta(i64::MAX);
    match t.delta(i64::MIN) {
        // The raw difference wraps to 1, a plausible step.
        TimeDelta::Delta { nanos } => assert_eq!(nanos, 1),
        _ => panic!("expected a delta"),
    }
    let mut t = TimeTracker::new();
    t.delta(i64::MIN);
    match t.delta(i64::MAX) {
        // Wraps to -1, a glitch, clamped to the default step.
        TimeDelta::Delta { nanos } => assert_eq!(nanos, DEF_DELTA_NANOS),
        _ => panic!("expected a delta"),
    }
}

#[test]
fn elapsed_never_decreases_over_plausible_steps() {
    let mut t = TimeTracker::new();
    let mut last = t.real_time_nanos();
    let stamps = [0i64, 7, 3, 500_000_010, 500_000_011, i64::MAX, i64::MIN + 5];
    for s in stamps {
        t.delta(s);
        let now = t.real_time_nanos();
        assert!(now >= last);
        last = now;
    }
}

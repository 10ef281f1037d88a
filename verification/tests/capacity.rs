use scrolls::exit_code_from_status;
use scrolls::heuristic::{num_lines_heuristic, CapacityTracker};

#[test]
fn heuristic_tests() {
    let points: Vec<u16> = (0..200).map(num_lines_heuristic).collect();
    // ensure that for every increase in terminal row size the window size
    // is at least bigger or equal than for the previous terminal row size
    for w in points.windows(2) {
        assert!(w[0] <= w[1])
    }
}

#[test]
fn heuristic_exact_values() {
    assert_eq!(num_lines_heuristic(0), 1);
    assert_eq!(num_lines_heuristic(4), 1);
    assert_eq!(num_lines_heuristic(5), 1);
    assert_eq!(num_lines_heuristic(10), 6);
    assert_eq!(num_lines_heuristic(11), 6);
    assert_eq!(num_lines_heuristic(14), 9);
    assert_eq!(num_lines_heuristic(15), 10);
    assert_eq!(num_lines_heuristic(30), 20);
}

#[test]
fn explicit_capacity_wins() {
    let mut tracker = CapacityTracker::new();
    assert_eq!(tracker.current_capacity(Some(5)), 5);
    assert_eq!(tracker.current_capacity(Some(0)), 0);
    assert_eq!(tracker.current_capacity(Some(40)), 40);
}

#[test]
fn exit_code_passes_through_small_codes() {
    assert_eq!(exit_code_from_status(Some(3), false), 3);
    assert_eq!(exit_code_from_status(Some(0), true), 0);
    assert_eq!(exit_code_from_status(Some(255), false), 255);
}

#[test]
fn exit_code_maps_unrepresentable_codes() {
    assert_eq!(exit_code_from_status(Some(-1), false), 1);
    assert_eq!(exit_code_from_status(Some(300), false), 1);
    assert_eq!(exit_code_from_status(None, false), 1);
    assert_eq!(exit_code_from_status(None, true), 0);
}

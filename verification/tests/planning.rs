use stress_lb::errors::RunError;
use stress_lb::interval::Interval;
use stress_lb::orchestrate::join_summary;
use stress_lb::workers::carrier_cores;
use stress_lb::workers::spin_step;
use stress_lb::workers::worker_cores;
use stress_lb::workers::worker_count;

#[test]
fn worker_count_reserves_one_core() {
    // core_count = 4, threads_per_core = 3 -> (4 - 1) * 3 = 9 workers.
    assert_eq!(worker_count(4, 3), Some(9));
}

#[test]
fn worker_count_single_core_leaves_no_workers() {
    assert_eq!(worker_count(1, 3), Some(0));
}

#[test]
fn worker_count_zero_cores_is_refused() {
    assert_eq!(worker_count(0, 3), None);
}

#[test]
fn worker_count_overflow_is_refused() {
    assert_eq!(worker_count(usize::MAX, 2), None);
}

#[test]
fn worker_cores_skip_the_reserved_core() {
    assert_eq!(worker_cores(4), vec![1, 2, 3]);
    assert_eq!(worker_cores(1), Vec::<usize>::new());
}

#[test]
fn carrier_core_is_the_reserved_one() {
    assert_eq!(carrier_cores(), vec![0]);
}

#[test]
fn core_sets_are_disjoint() {
    let workers = worker_cores(8);
    let carrier = carrier_cores();
    for w in &workers {
        for c in &carrier {
            assert_ne!(w, c);
        }
    }
}

#[test]
fn spin_step_increments() {
    assert_eq!(spin_step(0), 1);
    assert_eq!(spin_step(41), 42);
}

#[test]
fn spin_step_wraps_at_the_top() {
    assert_eq!(spin_step(u64::MAX), 0);
}

#[test]
fn spin_worker_counts_at_least_one_round() {
    // One round of the busy loop before the flag is observed.
    let mut counter: u64 = 0;
    counter = spin_step(counter);
    assert!(counter >= 1);
}

#[test]
fn join_summary_of_no_threads_is_ok() {
    assert_eq!(join_summary(&Vec::new()), Ok(()));
}

#[test]
fn join_summary_all_clean_is_ok() {
    assert_eq!(join_summary(&vec![true, true, true]), Ok(()));
}

#[test]
fn join_summary_reports_a_failed_join() {
    assert_eq!(join_summary(&vec![true, false, true]), Err(RunError::Join));
}

#[test]
fn interval_from_millis_default() {
    // The default timer period is one millisecond.
    let iv = Interval::from_millis(1).unwrap();
    assert_eq!(iv.secs_part(), 0);
    assert_eq!(iv.nanos_part(), 1_000_000);
    assert_eq!(iv.as_total_nanos(), Some(1_000_000));
}

#[test]
fn interval_from_millis_splits_seconds() {
    let iv = Interval::from_millis(1500).unwrap();
    assert_eq!(iv.secs_part(), 1);
    assert_eq!(iv.nanos_part(), 500_000_000);
}

#[test]
fn interval_must_be_positive() {
    assert!(Interval::from_millis(0).is_none());
    assert!(Interval::from_parts(0, 0).is_none());
}

#[test]
fn interval_must_be_normalized() {
    assert!(Interval::from_parts(1, 1_000_000_000).is_none());
    assert!(Interval::from_parts(u64::MAX, 0).is_none());
    assert!(Interval::from_parts(2, 999_999_999).is_some());
}

#[test]
fn arm_request_uses_the_interval_twice() {
    // Initial delay and repeat period are armed with the same value.
    let iv = Interval::from_millis(10).unwrap();
    let arm = iv.arm_request();
    assert_eq!(arm.value_secs, 0);
    assert_eq!(arm.value_nanos, 10_000_000);
    assert_eq!(arm.interval_secs, arm.value_secs);
    assert_eq!(arm.interval_nanos, arm.value_nanos);
}

use cursor_registry::reaper::Reaper;
use cursor_registry::request_tracker::{RequestIntervalKind, RequestTracker};

#[test]
fn a_changed_interval_takes_effect_on_the_cycle_that_observes_it() {
    let mut reaper = Reaper::new(10);
    assert_eq!(reaper.interval_secs(), 10);

    // The same value read back: nothing to rebuild.
    assert!(!reaper.observe_interval(Some(10)));
    assert_eq!(reaper.interval_secs(), 10);

    // A new value read back: the timer must be rebuilt with it.
    assert!(reaper.observe_interval(Some(2)));
    assert_eq!(reaper.interval_secs(), 2);
}

#[test]
fn a_failed_configuration_fetch_keeps_the_previous_interval() {
    let mut reaper = Reaper::new(30);
    assert!(!reaper.observe_interval(None));
    assert_eq!(reaper.interval_secs(), 30);

    // After the failure the next successful fetch still applies.
    assert!(reaper.observe_interval(Some(5)));
    assert_eq!(reaper.interval_secs(), 5);
}

#[test]
fn a_new_tracker_reports_zero_for_every_phase() {
    let tracker = RequestTracker::new();
    assert_eq!(tracker.get_interval_elapsed_time(RequestIntervalKind::HandleMessage), 0);
    assert_eq!(tracker.get_interval_elapsed_time(RequestIntervalKind::BufferRead), 0);
    assert_eq!(tracker.get_interval_elapsed_time(RequestIntervalKind::PostgresCommitTransaction), 0);

    let by_default: RequestTracker = Default::default();
    assert_eq!(by_default.get_interval_elapsed_time(RequestIntervalKind::ProcessRequest), 0);
}

#[test]
fn recorded_durations_accumulate_per_phase() {
    let mut tracker = RequestTracker::new();
    tracker.record_duration(RequestIntervalKind::BufferRead, 150);
    tracker.record_duration(RequestIntervalKind::BufferRead, 25);
    tracker.record_duration(RequestIntervalKind::HandleRequest, 9);

    assert_eq!(tracker.get_interval_elapsed_time(RequestIntervalKind::BufferRead), 175);
    assert_eq!(tracker.get_interval_elapsed_time(RequestIntervalKind::HandleRequest), 9);
    assert_eq!(tracker.get_interval_elapsed_time(RequestIntervalKind::HandleMessage), 0);
}

#[test]
fn an_overflowing_total_wraps_around() {
    let mut tracker = RequestTracker::new();
    tracker.record_duration(RequestIntervalKind::ProcessRequest, i64::MAX);
    tracker.record_duration(RequestIntervalKind::ProcessRequest, 1);
    assert_eq!(tracker.get_interval_elapsed_time(RequestIntervalKind::ProcessRequest), i64::MIN);
}

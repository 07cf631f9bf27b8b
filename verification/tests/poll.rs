use node_runner::error::NodeRunnerError;
use node_runner::poll::HeightTracker;

#[test]
fn reports_the_strictly_increasing_heights() {
    let mut tracker = HeightTracker::new();
    let outcomes = vec![Ok(100), Ok(100), Ok(105), Ok(104), Ok(110)];
    assert_eq!(tracker.observe_all(&outcomes), vec![100, 105, 110]);
    assert_eq!(tracker.recorded_height(), 110);
}

#[test]
fn recorded_height_never_falls() {
    let mut tracker = HeightTracker::new();
    let mut last = tracker.recorded_height();
    assert_eq!(last, i64::MIN);
    for height in [100i64, 100, 105, 104, 110, -3, 0, 110, 111] {
        tracker.observe(&Ok(height));
        assert!(tracker.recorded_height() >= last);
        last = tracker.recorded_height();
    }
    assert_eq!(last, 111);
}

#[test]
fn failed_queries_are_skipped() {
    let mut tracker = HeightTracker::new();
    assert_eq!(tracker.observe(&Err(NodeRunnerError::ExecNotAttached)), None);
    assert_eq!(tracker.recorded_height(), i64::MIN);
    assert_eq!(tracker.observe(&Ok(7)), Some(7));
    assert_eq!(tracker.observe(&Err(NodeRunnerError::MalformedOutput)), None);
    assert_eq!(
        tracker.observe(&Err(NodeRunnerError::EngineOperationFailed("gone".to_string()))),
        None
    );
    assert_eq!(tracker.recorded_height(), 7);
    let outcomes = vec![
        Err(NodeRunnerError::EngineUnavailable("no socket".to_string())),
        Ok(7),
        Ok(8),
        Err(NodeRunnerError::MalformedOutput),
        Ok(9),
    ];
    assert_eq!(tracker.observe_all(&outcomes), vec![8, 9]);
}

#[test]
fn least_height_is_never_reported() {
    let mut tracker = HeightTracker::new();
    assert_eq!(tracker.observe(&Ok(i64::MIN)), None);
    assert_eq!(tracker.observe(&Ok(i64::MIN + 1)), Some(i64::MIN + 1));
    assert_eq!(tracker.observe(&Ok(i64::MAX)), Some(i64::MAX));
    assert_eq!(tracker.observe(&Ok(i64::MAX)), None);
}

#[test]
fn no_observation_reports_nothing() {
    let mut tracker = HeightTracker::new();
    let outcomes: Vec<Result<i64, NodeRunnerError>> = Vec::new();
    assert_eq!(tracker.observe_all(&outcomes), Vec::<i64>::new());
    assert_eq!(tracker.recorded_height(), i64::MIN);
}

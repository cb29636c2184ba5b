use matchbot_api::progress::SeriesProgressTracker;

#[test]
fn all_maps_complete() {
    assert!(SeriesProgressTracker::is_series_complete(&vec![Some(10), Some(20), Some(30)]));
    assert!(SeriesProgressTracker::is_series_complete(&vec![Some(1)]));
}

#[test]
fn one_map_left() {
    assert!(!SeriesProgressTracker::is_series_complete(&vec![Some(10), None, Some(30)]));
    assert!(!SeriesProgressTracker::is_series_complete(&vec![None]));
}

#[test]
fn counting_unfinished() {
    assert_eq!(SeriesProgressTracker::count_incomplete(&vec![None, Some(3), None]), 2);
    assert_eq!(SeriesProgressTracker::count_incomplete(&vec![Some(3)]), 0);
    assert_eq!(SeriesProgressTracker::count_incomplete(&Vec::new()), 0);
}

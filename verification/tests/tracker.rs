use jwaf::message::LogEvent;
use jwaf::tracker::DuplicateTracker;

#[test]
fn fresh_tracker_has_seen_nothing() {
    let tracker = DuplicateTracker::new();
    assert_eq!(tracker.len(), 0);
    assert_eq!(tracker.last_method("/"), None);
}

#[test]
fn only_the_second_of_two_identical_requests_is_flagged() {
    let mut tracker = DuplicateTracker::new();
    assert_eq!(tracker.observe("/putpath", "PUT"), None);
    assert_eq!(
        tracker.observe("/putpath", "PUT"),
        Some(LogEvent::Duplicate { uri: "/putpath".to_string(), method: "PUT".to_string() })
    );
    assert_eq!(tracker.len(), 1);
}

#[test]
fn every_further_repeat_is_flagged_too() {
    let mut tracker = DuplicateTracker::new();
    tracker.observe("/", "GET");
    assert!(tracker.observe("/", "GET").is_some());
    assert!(tracker.observe("/", "GET").is_some());
}

#[test]
fn another_method_is_no_duplicate_and_takes_the_entry_over() {
    let mut tracker = DuplicateTracker::new();
    assert_eq!(tracker.observe("/", "GET"), None);
    assert_eq!(tracker.observe("/", "POST"), None);
    assert_eq!(tracker.last_method("/"), Some("POST".to_string()));
    assert_eq!(tracker.observe("/", "GET"), None);
    assert_eq!(tracker.last_method("/"), Some("GET".to_string()));
    assert_eq!(tracker.len(), 1);
}

#[test]
fn uris_are_compared_exactly_with_their_query() {
    let mut tracker = DuplicateTracker::new();
    assert_eq!(tracker.observe("/path?a=1", "GET"), None);
    assert_eq!(tracker.observe("/path?a=2", "GET"), None);
    assert_eq!(tracker.observe("/path", "GET"), None);
    assert_eq!(tracker.observe("/Path", "GET"), None);
    assert!(tracker.observe("/path?a=1", "GET").is_some());
    assert_eq!(tracker.len(), 4);
}

#[test]
fn entries_are_never_removed() {
    let mut tracker = DuplicateTracker::new();
    for i in 0..100 {
        tracker.observe(&format!("/item/{}", i), "GET");
    }
    assert_eq!(tracker.len(), 100);
    for i in 0..100 {
        assert_eq!(tracker.last_method(&format!("/item/{}", i)), Some("GET".to_string()));
    }
}

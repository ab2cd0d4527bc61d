use nightfire::inactivity::InactivityTracker;
use nightfire::mixxx::beats::{Beat, BeatMap, Source};

#[test]
fn inactivity_after_ten_seconds() {
    let mut t = InactivityTracker::new();
    assert!(t.is_inactive(1_600_000_000_000_000_000));
    t.register_activity(1_600_000_000_000_000_000);
    assert!(!t.is_inactive(1_600_000_000_000_000_000));
    // exactly ten seconds later: still active
    assert!(!t.is_inactive(1_600_000_010_000_000_000));
    // one nanosecond more: inactive
    assert!(t.is_inactive(1_600_000_010_000_000_001));
}

#[test]
fn beat_defaults() {
    let b = Beat { frame_position: Some(1024), enabled: None, source: None };
    assert!(b.enabled());
    assert_eq!(b.source(), Source::Analyzer);
    let b = Beat { frame_position: None, enabled: Some(false), source: Some(2) };
    assert!(!b.enabled());
    assert_eq!(b.source(), Source::User);
    let b = Beat { frame_position: None, enabled: Some(true), source: Some(7) };
    assert_eq!(b.source(), Source::Analyzer);
    let m = BeatMap { beat: vec![b, b] };
    assert_eq!(m.beat.len(), 2);
}

#[test]
fn source_numbers() {
    assert_eq!(Source::from_i32(0), Some(Source::Analyzer));
    assert_eq!(Source::from_i32(1), Some(Source::FileMetadata));
    assert_eq!(Source::from_i32(2), Some(Source::User));
    assert_eq!(Source::from_i32(3), None);
    assert_eq!(Source::from_i32(-1), None);
    assert_eq!(Source::User.to_i32(), 2);
}

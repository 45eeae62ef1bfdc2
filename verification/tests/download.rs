use handy::download::{ProgressEvent, ProgressTracker};

#[test]
fn emits_when_percentage_advances() {
    let mut t = ProgressTracker::new(Some(200));
    assert_eq!(
        t.record_chunk(1),
        Some(ProgressEvent { pct: 0, downloaded: 1, total: 200 })
    );
    assert_eq!(t.record_chunk(0), None);
    assert_eq!(t.record_chunk(1), Some(ProgressEvent { pct: 1, downloaded: 2, total: 200 }));
    assert_eq!(t.record_chunk(1), None);
    assert_eq!(t.record_chunk(98), Some(ProgressEvent { pct: 50, downloaded: 101, total: 200 }));
    assert_eq!(t.record_chunk(99), Some(ProgressEvent { pct: 100, downloaded: 200, total: 200 }));
    assert_eq!(t.finish(), ProgressEvent { pct: 100, downloaded: 200, total: 200 });
}

#[test]
fn unknown_length_reports_only_at_the_end() {
    let mut t = ProgressTracker::new(None);
    assert_eq!(t.total, 0);
    assert_eq!(t.record_chunk(10), None);
    assert_eq!(t.record_chunk(10), None);
    assert_eq!(t.finish(), ProgressEvent { pct: 100, downloaded: 20, total: 0 });
}

#[test]
fn overshoot_beyond_announced_length() {
    let mut t = ProgressTracker::new(Some(10));
    assert_eq!(t.record_chunk(20), Some(ProgressEvent { pct: 200, downloaded: 20, total: 10 }));
}

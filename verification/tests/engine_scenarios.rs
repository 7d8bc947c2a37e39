use timetracker::engine::SegmentEngine;
use timetracker::models::WindowEvent;

fn sample(app: &str, title: &str, t: i64) -> WindowEvent {
    WindowEvent {
        app_name: app.to_string(),
        window_title: title.to_string(),
        executable_path: None,
        process_id: None,
        timestamp: t,
    }
}

#[test]
fn two_documents_then_idle_entry_yields_two_contiguous_records() {
    let mut engine = SegmentEngine::new();

    let r1 = engine.on_sample(&sample("AppA", "Doc1", 0), None, 0);
    assert!(r1.is_none());

    let r2 = engine.on_sample(&sample("AppA", "Doc2", 3), None, 3);
    let first = r2.expect("closing Doc1 at t=3 must yield a record");
    assert_eq!(first.app_name, "AppA");
    assert_eq!(first.window_title, "Doc1");
    assert_eq!(first.start_time, 0);
    assert_eq!(first.end_time, 3);

    let r3 = engine.on_flush(10);
    let second = r3.expect("idle entry at t=10 must close Doc2");
    assert_eq!(second.app_name, "AppA");
    assert_eq!(second.window_title, "Doc2");
    assert_eq!(second.start_time, 3);
    assert_eq!(second.end_time, 10);

    // No gap and no overlap between the two records, and none for the idle time.
    assert_eq!(first.end_time, second.start_time);
}

#[test]
fn identical_pair_is_a_noop_and_keeps_the_segment_open() {
    let mut engine = SegmentEngine::new();

    let r1 = engine.on_sample(&sample("AppA", "X", 0), None, 0);
    assert!(r1.is_none());

    let r2 = engine.on_sample(&sample("AppA", "X", 1), None, 1);
    assert!(r2.is_none(), "a repeated identical sample must emit nothing");

    // The segment opened first is still open and still starts at t=0.
    let r3 = engine.on_flush(5);
    let record = r3.expect("the segment opened at t=0 is still open");
    assert_eq!(record.start_time, 0);
    assert_eq!(record.end_time, 5);
}

#[test]
fn sub_second_segment_is_discarded_on_stop() {
    let mut engine = SegmentEngine::new();

    let r1 = engine.on_sample(&sample("AppB", "Y", 0), None, 0);
    assert!(r1.is_none());

    // Stop at the same whole second: duration 0 is below the minimum.
    let r2 = engine.on_flush(0);
    assert!(r2.is_none(), "a zero-duration record must never be persisted");
}

#[test]
fn flush_with_no_open_segment_is_a_noop() {
    let mut engine = SegmentEngine::new();
    assert!(engine.on_flush(7).is_none());
    assert!(engine.on_flush(8).is_none());
}

#[test]
fn flicker_between_windows_keeps_records_contiguous() {
    let mut engine = SegmentEngine::new();
    assert!(engine.on_sample(&sample("A", "1", 0), Some(1), 0).is_none());

    let r1 = engine.on_sample(&sample("B", "2", 2), Some(2), 2).unwrap();
    let r2 = engine.on_sample(&sample("A", "1", 5), Some(1), 5).unwrap();
    let r3 = engine.on_flush(6).unwrap();

    assert_eq!((r1.start_time, r1.end_time), (0, 2));
    assert_eq!((r2.start_time, r2.end_time), (2, 5));
    assert_eq!((r3.start_time, r3.end_time), (5, 6));
    assert_eq!(r1.application_id, Some(1));
    assert_eq!(r2.application_id, Some(2));
    assert_eq!(r3.application_id, Some(1));
}

#[test]
fn every_emitted_record_lasts_at_least_one_second() {
    let mut engine = SegmentEngine::new();
    assert!(engine.on_sample(&sample("A", "1", 10), None, 10).is_none());

    // Same-second switch: the first segment is dropped, the new one opens.
    assert!(engine.on_sample(&sample("B", "2", 10), None, 10).is_none());

    let record = engine.on_flush(11).unwrap();
    assert_eq!(record.app_name, "B");
    assert_eq!(record.start_time, 10);
    assert_eq!(record.end_time, 11);
    assert!(record.end_time - record.start_time >= 1);
}

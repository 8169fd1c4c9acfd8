use std::collections::HashMap;

use image_extractor::models::ImageRecord;
use image_extractor::pipeline::{Extraction, LogEvent, Severity, StreamItem};
use image_extractor::run_model::replay_run;

fn record(id: i32, name: &str, payload: Option<&[u8]>) -> StreamItem {
    StreamItem::Record(ImageRecord {
        id,
        image_name: name.to_string(),
        original_image: payload.map(|p| p.to_vec()),
    })
}

/// Drives the orchestrator the way the caller does: one item at a time, each
/// planned write applied to an in-memory directory, writes whose target name
/// is in `fail_names` reporting an error instead.
fn run(
    items: Vec<StreamItem>,
    fs: &mut HashMap<String, Vec<u8>>,
    fail_names: &[&str],
) -> Extraction {
    let mut extraction = Extraction::new();
    for item in items {
        if let Some(plan) = extraction.on_stream_item(item) {
            if fail_names.contains(&plan.filename.as_str()) {
                extraction.on_write_result(plan.id, Err("unwritable path".to_string()));
            } else {
                fs.insert(plan.filename, plan.data);
                extraction.on_write_result(plan.id, Ok(()));
            }
        }
    }
    extraction
}

#[test]
fn skip_on_null_payload() {
    let mut fs = HashMap::new();
    let extraction = run(vec![record(7, "ghost", None)], &mut fs, &[]);
    assert_eq!(extraction.saved, 0);
    assert!(fs.is_empty());
    assert_eq!(extraction.events.len(), 1);
    assert!(matches!(
        extraction.events[0],
        LogEvent::SkippedNoPayload { id: 7 }
    ));
    assert_eq!(extraction.events[0].severity(), Severity::Warning);
}

#[test]
fn decode_error_does_not_abort_run() {
    let mut fs = HashMap::new();
    let extraction = run(
        vec![
            StreamItem::DecodeError("bad row".to_string()),
            record(1, "x.png", Some(b"bytes")),
        ],
        &mut fs,
        &[],
    );
    assert_eq!(extraction.saved, 1);
    assert_eq!(fs.get("x.png").map(Vec::as_slice), Some(&b"bytes"[..]));
    assert_eq!(extraction.events.len(), 1);
    match &extraction.events[0] {
        LogEvent::StreamError { detail } => {
            assert_eq!(detail, "bad row");
            assert_eq!(extraction.events[0].severity(), Severity::Error);
        }
        _ => panic!("expected a stream error"),
    }
}

#[test]
fn fault_isolation_one_failed_write() {
    let mut fs = HashMap::new();
    let extraction = run(
        vec![
            record(1, "x", Some(b"one")),
            record(2, "y", Some(b"two")),
            record(3, "z", Some(b"three")),
        ],
        &mut fs,
        &["y.jpg"],
    );
    // N - 1 files written, run completed, exactly one error naming record 2.
    assert_eq!(extraction.saved, 2);
    assert_eq!(fs.len(), 2);
    assert!(fs.contains_key("x.jpg"));
    assert!(fs.contains_key("z.jpg"));
    assert_eq!(extraction.events.len(), 1);
    match &extraction.events[0] {
        LogEvent::PersistError { id, detail } => {
            assert_eq!(*id, 2);
            assert_eq!(detail, "unwritable path");
            assert_eq!(extraction.events[0].severity(), Severity::Error);
        }
        _ => panic!("expected a persistence error"),
    }
}

#[test]
fn end_to_end_three_records() {
    let mut fs = HashMap::new();
    let extraction = run(
        vec![
            record(1, "a", Some(b"payload-a")),
            record(2, "b", None),
            record(3, "c.png", Some(b"payload-c")),
        ],
        &mut fs,
        &[],
    );
    assert_eq!(extraction.saved, 2);
    assert_eq!(fs.len(), 2);
    assert_eq!(fs.get("a.jpg").map(Vec::as_slice), Some(&b"payload-a"[..]));
    assert_eq!(fs.get("c.png").map(Vec::as_slice), Some(&b"payload-c"[..]));
    assert_eq!(extraction.events.len(), 1);
    assert!(matches!(
        extraction.events[0],
        LogEvent::SkippedNoPayload { id: 2 }
    ));
}

#[test]
fn second_run_overwrites_with_identical_content() {
    let items = || {
        vec![
            record(1, "a", Some(b"payload-a")),
            record(2, "b", None),
            record(3, "c.png", Some(b"payload-c")),
        ]
    };
    let mut fs = HashMap::new();
    let first = run(items(), &mut fs, &[]);
    let after_first = fs.clone();
    let second = run(items(), &mut fs, &[]);
    assert_eq!(fs, after_first);
    assert_eq!(first.saved, second.saved);
}

#[test]
fn colliding_names_overwrite_silently() {
    let mut fs = HashMap::new();
    let extraction = run(
        vec![
            record(1, "same", Some(b"first")),
            record(2, "same", Some(b"second")),
        ],
        &mut fs,
        &[],
    );
    // Known limitation preserved: the later record wins, both count as saved.
    assert_eq!(extraction.saved, 2);
    assert_eq!(fs.len(), 1);
    assert_eq!(fs.get("same.jpg").map(Vec::as_slice), Some(&b"second"[..]));
}

#[test]
fn replay_with_known_outcomes() {
    let items = vec![
        record(1, "a", Some(b"one")),
        record(2, "b", None),
        StreamItem::DecodeError("torn page".to_string()),
        record(4, "d.png", Some(b"four")),
    ];
    // One outcome slot per item; only items that plan a write consume theirs.
    let outcomes = vec![
        Ok(()),
        Ok(()),
        Ok(()),
        Err("disk full".to_string()),
    ];
    let (extraction, written) = replay_run(items, outcomes);
    assert_eq!(extraction.saved, 1);
    assert_eq!(written.len(), 1);
    assert_eq!(written[0].filename, "a.jpg");
    assert_eq!(written[0].data, b"one");
    assert_eq!(extraction.events.len(), 3);
    assert!(matches!(
        extraction.events[0],
        LogEvent::SkippedNoPayload { id: 2 }
    ));
    assert!(matches!(extraction.events[1], LogEvent::StreamError { .. }));
    assert!(matches!(
        extraction.events[2],
        LogEvent::PersistError { id: 4, .. }
    ));
}

#[test]
fn tally_counts_only_successful_writes() {
    let mut fs = HashMap::new();
    let extraction = run(
        vec![
            StreamItem::DecodeError("torn page".to_string()),
            record(5, "kept", Some(b"data")),
            record(6, "lost", Some(b"data")),
            record(7, "empty", None),
        ],
        &mut fs,
        &["lost.jpg"],
    );
    assert_eq!(extraction.saved, 1);
    assert_eq!(extraction.events.len(), 3);
}

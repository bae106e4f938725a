use logdaemon::codec::parse_compression;
use logdaemon::entry::LogEntry;
use logdaemon::flusher::{flusher_step, FlusherEvent};
use logdaemon::query::QueryEngine;
use logdaemon::storage::{NewFile, StorageEngine};
use logdaemon::tracespan::{status_text, SpanStatus, TraceSpan, TraceStorage};

fn entry(message: &str) -> LogEntry {
    LogEntry {
        timestamp: "2026-01-15T19:00:00Z".to_string(),
        level: "info".to_string(),
        message: message.to_string(),
        service: None,
        trace_id: None,
        metadata: None,
    }
}

#[test]
fn test_storage_engine_basic() {
    let mut engine =
        StorageEngine::new("logs".to_string(), parse_compression("snappy"), 10, 1024 * 1024);

    let log = entry("Test log");

    let mut files: Vec<NewFile> = Vec::new();
    if let Some(f) = engine.add_log(log).unwrap() {
        files.push(f);
    }
    if let Some(f) = engine.flush().unwrap() {
        files.push(f);
    }

    assert_eq!(files.len(), 1);
}

#[test]
fn test_query_engine() {
    // Write some test logs: batch size five, ten records, two files.
    let mut engine =
        StorageEngine::new("logs".to_string(), parse_compression("snappy"), 5, 1024 * 1024);

    let mut files: Vec<Vec<u8>> = Vec::new();
    for i in 0..10 {
        let log = entry(&format!("Test log {}", i));
        if let Some(f) = engine.add_log(log).unwrap() {
            files.push(f.bytes);
        }
    }
    if let Some(f) = engine.flush().unwrap() {
        files.push(f.bytes);
    }

    let query_engine = QueryEngine::new("logs".to_string());
    let count = query_engine.count_logs(&files);
    assert_eq!(count, 10);
}

#[test]
fn single_record_round_trips_exactly() {
    let mut engine =
        StorageEngine::new("logs".to_string(), parse_compression("snappy"), 1000, 0);
    let log = LogEntry {
        timestamp: "2026-01-15T19:00:00Z".to_string(),
        level: "info".to_string(),
        message: "hi".to_string(),
        service: None,
        trace_id: None,
        metadata: None,
    };
    assert!(engine.add_log(log).unwrap().is_none());
    let file = engine.flush().unwrap().expect("one file");
    assert!(file.name.starts_with("logs_"));
    assert!(file.name.ends_with("_0.parquet"));

    let query_engine = QueryEngine::new("logs".to_string());
    let rows = query_engine.read_file(&file.bytes).unwrap();
    assert_eq!(rows.len(), 1);
    assert_eq!(rows[0].timestamp_millis, 1768503600000);
    assert_eq!(rows[0].level, "info");
    assert_eq!(rows[0].message, "hi");
    assert!(rows[0].service.is_none());
    assert!(rows[0].trace_id.is_none());
    assert!(rows[0].metadata.is_none());
}

#[test]
fn unparsable_timestamp_is_stored_as_epoch_zero() {
    let mut engine =
        StorageEngine::new("logs".to_string(), parse_compression("none"), 1000, 0);
    let mut log = entry("odd time");
    log.timestamp = "not a time".to_string();
    engine.add_log(log).unwrap();
    let file = engine.flush().unwrap().expect("one file");
    let rows = QueryEngine::new("logs".to_string()).read_file(&file.bytes).unwrap();
    assert_eq!(rows[0].timestamp_millis, 0);
}

#[test]
fn optional_fields_are_preserved_through_a_file() {
    let mut engine =
        StorageEngine::new("logs".to_string(), parse_compression("zstd"), 1000, 0);
    let log = LogEntry {
        timestamp: "2026-01-15T19:00:00Z".to_string(),
        level: "error".to_string(),
        message: "boom".to_string(),
        service: Some("api".to_string()),
        trace_id: Some("t-1".to_string()),
        metadata: Some("{\"k\":1}".to_string()),
    };
    engine.add_log(log).unwrap();
    let file = engine.flush().unwrap().expect("one file");
    let rows = QueryEngine::new("logs".to_string()).read_file(&file.bytes).unwrap();
    assert_eq!(rows[0].service.as_deref(), Some("api"));
    assert_eq!(rows[0].trace_id.as_deref(), Some("t-1"));
    assert_eq!(rows[0].metadata.as_deref(), Some("{\"k\":1}"));
}

#[test]
fn batch_boundary_splits_files_three_three_one() {
    let mut engine =
        StorageEngine::new("logs".to_string(), parse_compression("snappy"), 3, 0);
    let query = QueryEngine::new("logs".to_string());

    let mut row_counts: Vec<usize> = Vec::new();
    for i in 0..7 {
        if let Some(f) = engine.add_log(entry(&format!("r{}", i))).unwrap() {
            row_counts.push(query.read_file(&f.bytes).unwrap().len());
        }
    }
    // Two full batches reached the bound; nothing else is on disk yet.
    assert_eq!(row_counts, vec![3, 3]);

    // The idle flush writes the remainder.
    if let Some(f) = engine.flush().unwrap() {
        row_counts.push(query.read_file(&f.bytes).unwrap().len());
    }
    assert_eq!(row_counts, vec![3, 3, 1]);
}

#[test]
fn batch_size_one_writes_a_file_per_record() {
    let mut engine =
        StorageEngine::new("logs".to_string(), parse_compression("snappy"), 1, 0);
    let query = QueryEngine::new("logs".to_string());
    for i in 0..4 {
        let f = engine.add_log(entry(&format!("solo {}", i))).unwrap().expect("one file each");
        assert_eq!(query.read_file(&f.bytes).unwrap().len(), 1);
    }
    // Nothing remains to flush.
    assert!(engine.flush().unwrap().is_none());
}

#[test]
fn flush_is_idempotent() {
    let mut engine =
        StorageEngine::new("logs".to_string(), parse_compression("snappy"), 10, 0);
    engine.add_log(entry("only one")).unwrap();
    let first = engine.flush().unwrap();
    assert!(first.is_some());
    let second = engine.flush().unwrap();
    assert!(second.is_none());
}

#[test]
fn file_names_carry_the_monotone_counter() {
    let mut engine =
        StorageEngine::new("logs".to_string(), parse_compression("snappy"), 1, 0);
    let a = engine.add_log(entry("a")).unwrap().unwrap();
    let b = engine.add_log(entry("b")).unwrap().unwrap();
    let c = engine.add_log(entry("c")).unwrap().unwrap();
    assert!(a.name.ends_with("_0.parquet"));
    assert!(b.name.ends_with("_1.parquet"));
    assert!(c.name.ends_with("_2.parquet"));
}

#[test]
fn discarded_file_does_not_disturb_later_flushes() {
    // A storage fault is the caller's to see: the engine hands the file out,
    // its batch is already clear, and later records flush normally.
    let mut engine =
        StorageEngine::new("logs".to_string(), parse_compression("snappy"), 10, 0);
    engine.add_log(entry("lost to a full disk")).unwrap();
    let faulted = engine.flush().unwrap();
    assert!(faulted.is_some());
    drop(faulted);

    engine.add_log(entry("written later")).unwrap();
    let file = engine.flush().unwrap().expect("a healthy file");
    let rows = QueryEngine::new("logs".to_string()).read_file(&file.bytes).unwrap();
    assert_eq!(rows.len(), 1);
    assert_eq!(rows[0].message, "written later");
}

#[test]
fn flusher_drains_queue_and_counts_ingest() {
    // Two writers, a stalled consumer, queue capacity two: of one hundred
    // records, at least ninety-eight drop, and the drained rest are ingested.
    let validator = logdaemon::schema::SchemaValidator::default_schema().unwrap();
    let (tx, mut rx) = tokio::sync::mpsc::channel(2);
    let mut stats_a = logdaemon::conn::ConnStats::new();
    let mut stats_b = logdaemon::conn::ConnStats::new();
    let mut acc_a = logdaemon::frame::FrameAccumulator::new();
    let mut acc_b = logdaemon::frame::FrameAccumulator::new();

    let mut chunk = Vec::new();
    for _ in 0..50 {
        let payload = br#"{"timestamp":"2026-01-15T19:00:00Z","level":"info","message":"q"}"#;
        chunk.extend_from_slice(&(payload.len() as u32).to_be_bytes());
        chunk.extend_from_slice(payload);
    }
    logdaemon::conn::handle_chunk(&mut acc_a, &validator, &tx, &chunk, &mut stats_a);
    logdaemon::conn::handle_chunk(&mut acc_b, &validator, &tx, &chunk, &mut stats_b);

    let accepted = stats_a.accepted + stats_b.accepted;
    let dropped = stats_a.dropped + stats_b.dropped;
    assert_eq!(accepted, 100);
    assert!(dropped >= 98);

    // The flusher wakes up and drains what the queue held.
    let mut engine =
        StorageEngine::new("logs".to_string(), parse_compression("snappy"), 1000, 0);
    while let Ok(log) = rx.try_recv() {
        let (result, done) = flusher_step(&mut engine, FlusherEvent::Received(log));
        assert!(result.is_ok());
        assert!(!done);
    }
    let (final_flush, done) = flusher_step(&mut engine, FlusherEvent::Closed);
    assert!(done);
    assert!(final_flush.is_ok());

    assert_eq!(engine.ingest_count() + dropped, 100);
}

#[test]
fn trace_storage_batches_and_drains() {
    let mut storage =
        TraceStorage::new("traces".to_string(), parse_compression("snappy"), 2);
    let span = TraceSpan {
        trace_id: "t".to_string(),
        span_id: "s1".to_string(),
        parent_span_id: None,
        name: "op".to_string(),
        start_time_us: 1_000,
        end_time_us: 3_500,
        duration_us: 2_500,
        attributes: vec![("k".to_string(), "v".to_string())],
        events: Vec::new(),
        status: SpanStatus::Success,
    };
    assert!(storage.add_span(span.clone()).is_none());
    let drained = storage.add_span(span).expect("full batch drains");
    assert_eq!(drained.spans.len(), 2);
    assert!(drained.name.starts_with("traces_"));
    assert!(drained.name.ends_with("_000.parquet"));
    assert!(storage.flush().is_none());

    // The next drained batch carries the next padded counter.
    let span2 = TraceSpan {
        trace_id: "t".to_string(),
        span_id: "s2".to_string(),
        parent_span_id: Some("s1".to_string()),
        name: "child".to_string(),
        start_time_us: 1_200,
        end_time_us: 1_300,
        duration_us: 100,
        attributes: Vec::new(),
        events: Vec::new(),
        status: SpanStatus::Error { message: "boom".to_string() },
    };
    storage.add_span(span2);
    let second = storage.flush().expect("a waiting span drains");
    assert_eq!(second.spans.len(), 1);
    assert!(second.name.ends_with("_001.parquet"));
}

#[test]
fn span_status_text_forms() {
    assert_eq!(status_text(&SpanStatus::Success), "OK");
    let err = SpanStatus::Error { message: "timeout".to_string() };
    assert_eq!(status_text(&err), "ERROR: timeout");
}

#[test]
fn split_across_two_connections_yields_the_same_rows() {
    // The same three records, once over a single connection, once split
    // across two; the files hold the same multiset of rows either way.
    let run = |batches: Vec<Vec<&str>>| -> Vec<String> {
        let mut engine =
            StorageEngine::new("logs".to_string(), parse_compression("snappy"), 1000, 0);
        for batch in batches {
            for message in batch {
                engine.add_log(entry(message)).unwrap();
            }
        }
        let file = engine.flush().unwrap().expect("one file");
        let mut messages: Vec<String> = QueryEngine::new("logs".to_string())
            .read_file(&file.bytes)
            .unwrap()
            .into_iter()
            .map(|r| r.message)
            .collect();
        messages.sort();
        messages
    };

    let on_one = run(vec![vec!["a", "b", "c"]]);
    let split = run(vec![vec!["a", "c"], vec!["b"]]);
    assert_eq!(on_one, split);
}

#[test]
fn unreadable_files_are_skipped_by_the_query_path() {
    let mut engine =
        StorageEngine::new("logs".to_string(), parse_compression("snappy"), 1000, 0);
    engine.add_log(entry("kept")).unwrap();
    let good = engine.flush().unwrap().expect("one file");

    let garbage: Vec<u8> = vec![1, 2, 3, 4, 5];
    let files = vec![good.bytes.clone(), garbage, good.bytes.clone()];
    let query = QueryEngine::new("logs".to_string());
    let rows = query.read_all(&files);
    assert_eq!(rows.len(), 2);
    assert!(rows.iter().all(|r| r.message == "kept"));
}

use logdaemon::codec::{parse_compression, Compression};
use logdaemon::config::{Config, ConfigError};
use logdaemon::conn::{handle_chunk, ChunkOutcome, ConnStats};
use logdaemon::frame::{FrameAccumulator, FrameStep};
use logdaemon::metrics::ConnectionGauge;
use logdaemon::schema::{project_record, JsonField, RawRecord, SchemaError, SchemaValidator};

fn frame_of(payload: &[u8]) -> Vec<u8> {
    let mut out = Vec::new();
    out.extend_from_slice(&(payload.len() as u32).to_be_bytes());
    out.extend_from_slice(payload);
    out
}

#[test]
fn test_fast_path_parsing() {
    let validator = SchemaValidator::default_schema().unwrap();
    let mut data = r#"{"timestamp":"2026-01-15T19:00:00Z","level":"info","message":"Fast log"}"#
        .as_bytes()
        .to_vec();

    let entry = validator.parse_fast(&mut data).unwrap();
    assert_eq!(entry.message, "Fast log");
}

#[test]
fn test_default_schema_valid() {
    let validator = SchemaValidator::default_schema().unwrap();

    let valid_log: serde_json::Value = serde_json::from_str(
        r#"{"timestamp":"2026-01-15T19:00:00Z","level":"info","message":"Test log message"}"#,
    )
    .unwrap();

    assert!(validator.validate(&valid_log).is_ok());
}

#[test]
fn fast_path_fills_all_fields() {
    let validator = SchemaValidator::default_schema().unwrap();
    let mut data = r#"{"timestamp":"2026-01-15T19:00:00Z","level":"warn","message":"m","service":"svc","trace_id":"t1","metadata":{"k":1}}"#
        .as_bytes()
        .to_vec();
    let entry = validator.parse_fast(&mut data).unwrap();
    assert_eq!(entry.timestamp, "2026-01-15T19:00:00Z");
    assert_eq!(entry.level, "warn");
    assert_eq!(entry.service.as_deref(), Some("svc"));
    assert_eq!(entry.trace_id.as_deref(), Some("t1"));
    assert_eq!(entry.metadata.as_deref(), Some("{\"k\":1}"));
}

#[test]
fn missing_timestamp_is_rejected_fast_path() {
    let validator = SchemaValidator::default_schema().unwrap();
    let mut data = r#"{"level":"info","message":"x"}"#.as_bytes().to_vec();
    let r = validator.parse_fast(&mut data);
    assert!(matches!(r, Err(SchemaError::Projection(_))));
}

#[test]
fn missing_timestamp_is_rejected_slow_path() {
    let doc: serde_json::Value =
        serde_json::from_str(plain_schema_text().as_str()).expect("schema parses");
    let validator = SchemaValidator::from_value(doc, false).unwrap();
    let mut data = r#"{"level":"info","message":"x"}"#.as_bytes().to_vec();
    let err = validator.parse_fast(&mut data);
    assert!(matches!(err, Err(SchemaError::ValidationFailed(_))));
}

fn plain_schema_text() -> String {
    // The same shape as the built-in schema: three required fields.
    r#"{"$schema":"http://json-schema.org/draft-07/schema#","type":"object",
        "required":["timestamp","level","message"],
        "properties":{"timestamp":{"type":"string"},"level":{"type":"string"},
        "message":{"type":"string"}}}"#
        .to_string()
}

#[test]
fn empty_payload_is_invalid_json() {
    let validator = SchemaValidator::default_schema().unwrap();
    let mut data: Vec<u8> = Vec::new();
    assert!(matches!(validator.parse_fast(&mut data), Err(SchemaError::Parse(_))));
}

#[test]
fn frames_split_at_arbitrary_boundaries_reassemble() {
    let mut stream = Vec::new();
    stream.extend_from_slice(&frame_of(b"first"));
    stream.extend_from_slice(&frame_of(b""));
    stream.extend_from_slice(&frame_of(b"third payload"));

    // Feed the same stream one byte at a time.
    let mut acc = FrameAccumulator::new();
    let mut payloads: Vec<Vec<u8>> = Vec::new();
    for b in &stream {
        acc.extend(&[*b]);
        loop {
            match acc.next_frame() {
                FrameStep::Ready(p) => payloads.push(p),
                FrameStep::Incomplete => break,
                FrameStep::TooLarge => panic!("no frame is oversized"),
            }
        }
    }
    assert_eq!(payloads.len(), 3);
    assert_eq!(payloads[0], b"first".to_vec());
    assert_eq!(payloads[1], Vec::<u8>::new());
    assert_eq!(payloads[2], b"third payload".to_vec());

    // Feed it in two uneven halves: the same payloads come out.
    let mut acc2 = FrameAccumulator::new();
    let (a, b) = stream.split_at(7);
    let mut payloads2: Vec<Vec<u8>> = Vec::new();
    for chunk in [a, b] {
        acc2.extend(chunk);
        loop {
            match acc2.next_frame() {
                FrameStep::Ready(p) => payloads2.push(p),
                FrameStep::Incomplete => break,
                FrameStep::TooLarge => panic!("no frame is oversized"),
            }
        }
    }
    assert_eq!(payloads, payloads2);
}

#[test]
fn oversized_frame_is_fatal() {
    let mut acc = FrameAccumulator::new();
    let len: u32 = 16 * 1024 * 1024 + 1;
    acc.extend(&len.to_be_bytes());
    assert!(matches!(acc.next_frame(), FrameStep::TooLarge));
}

#[test]
fn zero_length_frame_is_dropped_with_a_count() {
    let validator = SchemaValidator::default_schema().unwrap();
    let (tx, mut rx) = tokio::sync::mpsc::channel(16);
    let mut acc = FrameAccumulator::new();
    let mut stats = ConnStats::new();
    let out = handle_chunk(&mut acc, &validator, &tx, &frame_of(b""), &mut stats);
    assert!(matches!(out, ChunkOutcome::Continue));
    assert_eq!(stats.parse_failures, 1);
    assert_eq!(stats.accepted, 0);
    assert!(rx.try_recv().is_err());
}

#[test]
fn handler_accounts_for_every_frame() {
    let validator = SchemaValidator::default_schema().unwrap();
    let (tx, mut rx) = tokio::sync::mpsc::channel(16);
    let mut acc = FrameAccumulator::new();
    let mut stats = ConnStats::new();

    let mut chunk = Vec::new();
    chunk.extend_from_slice(&frame_of(
        br#"{"timestamp":"2026-01-15T19:00:00Z","level":"info","message":"a"}"#,
    ));
    chunk.extend_from_slice(&frame_of(b"not json"));
    chunk.extend_from_slice(&frame_of(
        br#"{"timestamp":"2026-01-15T19:00:00Z","level":"info","message":"b"}"#,
    ));
    let out = handle_chunk(&mut acc, &validator, &tx, &chunk, &mut stats);
    assert!(matches!(out, ChunkOutcome::Continue));
    assert_eq!(stats.accepted, 2);
    assert_eq!(stats.parse_failures, 1);
    assert_eq!(stats.enqueued, 2);
    assert_eq!(stats.dropped, 0);
    assert_eq!(rx.try_recv().unwrap().message, "a");
    assert_eq!(rx.try_recv().unwrap().message, "b");
}

#[test]
fn full_queue_drops_and_counts() {
    // Queue capacity one, two records: a positive drop count.
    let validator = SchemaValidator::default_schema().unwrap();
    let (tx, _rx) = tokio::sync::mpsc::channel(1);
    let mut acc = FrameAccumulator::new();
    let mut stats = ConnStats::new();
    let mut chunk = Vec::new();
    for _ in 0..2 {
        chunk.extend_from_slice(&frame_of(
            br#"{"timestamp":"2026-01-15T19:00:00Z","level":"info","message":"x"}"#,
        ));
    }
    handle_chunk(&mut acc, &validator, &tx, &chunk, &mut stats);
    assert_eq!(stats.accepted, 2);
    assert_eq!(stats.enqueued, 1);
    assert_eq!(stats.dropped, 1);
}

#[test]
fn closed_queue_ends_the_handler() {
    let validator = SchemaValidator::default_schema().unwrap();
    let (tx, rx) = tokio::sync::mpsc::channel(1);
    drop(rx);
    let mut acc = FrameAccumulator::new();
    let mut stats = ConnStats::new();
    let chunk = frame_of(br#"{"timestamp":"2026-01-15T19:00:00Z","level":"info","message":"x"}"#);
    let out = handle_chunk(&mut acc, &validator, &tx, &chunk, &mut stats);
    assert!(matches!(out, ChunkOutcome::QueueClosed));
}

#[test]
fn compression_names_parse_case_insensitively() {
    assert_eq!(parse_compression("snappy"), Compression::Snappy);
    assert_eq!(parse_compression("SNAPPY"), Compression::Snappy);
    assert_eq!(parse_compression("Zstd"), Compression::Zstd);
    assert_eq!(parse_compression("gzip"), Compression::Gzip);
    assert_eq!(parse_compression("none"), Compression::Uncompressed);
    assert_eq!(parse_compression("UNCOMPRESSED"), Compression::Uncompressed);
    assert_eq!(parse_compression("lz77"), Compression::Snappy);
}

#[test]
fn config_defaults_and_validation() {
    let config = Config::default();
    assert_eq!(config.socket_path, "/tmp/logdaemon.sock");
    assert_eq!(config.storage_dir, "./logs");
    assert_eq!(config.batch_size, 1000);
    assert_eq!(config.compression, "snappy");
    assert_eq!(config.max_connections, 1000);
    assert_eq!(config.rotation_size, 100 * 1024 * 1024);
    assert_eq!(config.flush_interval_secs, 5);
    assert!(config.validate().is_ok());

    let mut bad = Config::default();
    bad.batch_size = 0;
    assert!(matches!(bad.validate(), Err(ConfigError::ZeroBatchSize)));

    let mut bad = Config::default();
    bad.max_connections = 0;
    assert!(matches!(bad.validate(), Err(ConfigError::ZeroMaxConnections)));

    // Unlike the engine's codec mapping, validation is case-sensitive.
    let mut bad = Config::default();
    bad.compression = "SNAPPY".to_string();
    assert!(matches!(bad.validate(), Err(ConfigError::InvalidCompression)));

    let mut bad = Config::default();
    bad.compression = "brotli".to_string();
    assert!(matches!(bad.validate(), Err(ConfigError::InvalidCompression)));
}

#[test]
fn gauge_returns_to_zero() {
    let mut gauge = ConnectionGauge::new();
    assert_eq!(gauge.connect(), 1);
    assert_eq!(gauge.connect(), 2);
    assert_eq!(gauge.disconnect(), 1);
    assert_eq!(gauge.connect(), 2);
    assert_eq!(gauge.disconnect(), 1);
    assert_eq!(gauge.disconnect(), 0);
    assert_eq!(gauge.current(), 0);
}

#[test]
fn null_optional_fields_read_as_absent() {
    let validator = SchemaValidator::default_schema().unwrap();
    let mut data = r#"{"timestamp":"2026-01-15T19:00:00Z","level":"info","message":"n","service":null,"trace_id":null,"metadata":null}"#
        .as_bytes()
        .to_vec();
    let entry = validator.parse_fast(&mut data).unwrap();
    assert!(entry.service.is_none());
    assert!(entry.trace_id.is_none());
    assert!(entry.metadata.is_none());
}

#[test]
fn bad_schema_fails_to_compile() {
    let doc: serde_json::Value = serde_json::from_str(r#"{"type": 5}"#).unwrap();
    let r = SchemaValidator::from_value(doc, false);
    assert!(matches!(r, Err(SchemaError::SchemaLoad(_))));
}

#[test]
fn projection_accepts_exactly_the_fitting_documents() {
    let ok = RawRecord {
        timestamp: JsonField::Text("2026-01-15T19:00:00Z".to_string()),
        level: JsonField::Text("info".to_string()),
        message: JsonField::Text("m".to_string()),
        service: JsonField::Absent,
        trace_id: JsonField::Text("t".to_string()),
        metadata: Some("{}".to_string()),
    };
    let entry = project_record(ok).unwrap();
    assert_eq!(entry.trace_id.as_deref(), Some("t"));
    assert_eq!(entry.metadata.as_deref(), Some("{}"));

    let missing = RawRecord {
        timestamp: JsonField::Absent,
        level: JsonField::Text("info".to_string()),
        message: JsonField::Text("m".to_string()),
        service: JsonField::Absent,
        trace_id: JsonField::Absent,
        metadata: None,
    };
    assert!(matches!(project_record(missing), Err(SchemaError::Projection(_))));

    let wrong_type = RawRecord {
        timestamp: JsonField::Text("2026-01-15T19:00:00Z".to_string()),
        level: JsonField::Text("info".to_string()),
        message: JsonField::Text("m".to_string()),
        service: JsonField::Other,
        trace_id: JsonField::Absent,
        metadata: None,
    };
    assert!(matches!(project_record(wrong_type), Err(SchemaError::Projection(_))));
}

#[test]
fn parquet_names_are_filtered_and_sorted() {
    let names = vec![
        "logs_b_1.parquet".to_string(),
        "notes.txt".to_string(),
        "logs_a_0.parquet".to_string(),
        "logs_a_10.parquet".to_string(),
    ];
    let sorted = logdaemon::text::sort_parquet_names(names);
    assert_eq!(
        sorted,
        vec![
            "logs_a_0.parquet".to_string(),
            "logs_a_10.parquet".to_string(),
            "logs_b_1.parquet".to_string(),
        ]
    );
}

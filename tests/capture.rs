use sentrystr_pipeline::{
    convert_tracing_level, create_sentrystr_event, extract_event_metadata, AlertConfig, FieldValue, FieldVisitor,
    Level, RecordMetadata, SentryStrLayer, Timestamp, TraceLevel,
};

fn metadata(level: TraceLevel) -> RecordMetadata {
    RecordMetadata {
        target: "app::db".to_string(),
        module: Some("app::db".to_string()),
        file: Some("src/db.rs".to_string()),
        line: Some(42),
        level,
    }
}

fn ts() -> Timestamp {
    Timestamp::from_secs(77)
}

#[test]
fn tracing_levels_convert() {
    assert_eq!(convert_tracing_level(&TraceLevel::Trace), Level::Debug);
    assert_eq!(convert_tracing_level(&TraceLevel::Debug), Level::Debug);
    assert_eq!(convert_tracing_level(&TraceLevel::Info), Level::Info);
    assert_eq!(convert_tracing_level(&TraceLevel::Warn), Level::Warning);
    assert_eq!(convert_tracing_level(&TraceLevel::Error), Level::Error);
}

#[test]
fn message_field_wins() {
    let mut v = FieldVisitor::new();
    v.record_i64("count", -3);
    v.record_str("message", "hello");
    assert_eq!(v.extract_message(), "hello");
    assert_eq!(v.message.as_deref(), Some("hello"));
}

#[test]
fn message_falls_back() {
    let mut v = FieldVisitor::new();
    assert_eq!(v.extract_message(), "No message");
    v.record_bool("ok", true);
    v.record_u64("n", 5);
    assert_eq!(v.extract_message(), "No message");
    v.record_debug("message", "rendered".to_string());
    assert_eq!(v.extract_message(), "rendered");
}

#[test]
fn float_fields_keep_bits_or_become_zero() {
    let mut v = FieldVisitor::new();
    v.record_f64_bits("cpu", 85.5f64.to_bits());
    v.record_f64_bits("bad", f64::NAN.to_bits());
    v.record_f64_bits("inf", f64::INFINITY.to_bits());
    assert_eq!(v.fields[0], ("cpu".to_string(), FieldValue::FloatBits(85.5f64.to_bits())));
    assert_eq!(v.fields[1], ("bad".to_string(), FieldValue::UInt(0)));
    assert_eq!(v.fields[2], ("inf".to_string(), FieldValue::UInt(0)));
}

#[test]
fn metadata_fields() {
    let m = extract_event_metadata(&metadata(TraceLevel::Warn));
    assert_eq!(
        m,
        vec![
            ("target".to_string(), FieldValue::Text("app::db".to_string())),
            ("module_path".to_string(), FieldValue::Text("app::db".to_string())),
            ("file".to_string(), FieldValue::Text("src/db.rs".to_string())),
            ("line".to_string(), FieldValue::UInt(42)),
            ("level".to_string(), FieldValue::Text("WARN".to_string())),
        ]
    );
    let bare = RecordMetadata { module: None, file: None, line: None, ..metadata(TraceLevel::Trace) };
    let m = extract_event_metadata(&bare);
    assert_eq!(m[1].1, FieldValue::Null);
    assert_eq!(m[2].1, FieldValue::Null);
    assert_eq!(m[3].1, FieldValue::Null);
    assert_eq!(m[4].1, FieldValue::Text("TRACE".to_string()));
}

#[test]
fn event_gets_prefixed_metadata() {
    let fields = vec![("user".to_string(), FieldValue::UInt(7))];
    let meta = vec![("line".to_string(), FieldValue::UInt(3))];
    let e = create_sentrystr_event("msg".to_string(), Level::Error, fields, meta, "id".to_string(), ts());
    assert_eq!(e.message.as_deref(), Some("msg"));
    assert_eq!(e.level, Level::Error);
    assert_eq!(e.timestamp, ts());
    assert_eq!(
        e.extra,
        vec![("user".to_string(), FieldValue::UInt(7)), ("meta_line".to_string(), FieldValue::UInt(3))]
    );
}

#[test]
fn layer_gate_drops_less_severe_records() {
    let layer = SentryStrLayer::new().with_min_level(TraceLevel::Info);
    assert!(!layer.should_process_event(&TraceLevel::Trace));
    assert!(!layer.should_process_event(&TraceLevel::Debug));
    assert!(layer.should_process_event(&TraceLevel::Info));
    assert!(layer.should_process_event(&TraceLevel::Error));
    assert!(layer.capture(FieldVisitor::new(), &metadata(TraceLevel::Debug), "id".to_string(), ts()).is_none());
    assert!(SentryStrLayer::new().should_process_event(&TraceLevel::Trace));
}

#[test]
fn layer_captures_record() {
    let mut v = FieldVisitor::new();
    v.record_str("message", "disk full");
    v.record_u64("free", 0);
    let alert = AlertConfig { recipient: "r".to_string(), min_level: Level::Error, use_nip17: true };
    let layer = SentryStrLayer::new().with_direct_messaging(alert);
    let c = layer.capture(v, &metadata(TraceLevel::Warn), "id".to_string(), ts()).unwrap();
    assert_eq!(c.event.message.as_deref(), Some("disk full"));
    assert_eq!(c.event.level, Level::Warning);
    assert!(!c.alert);
    assert_eq!(c.event.extra.len(), 6);
    assert_eq!(c.event.extra[0], ("free".to_string(), FieldValue::UInt(0)));
    assert!(c.event.extra.iter().all(|(k, _)| k != "message"));
    assert_eq!(c.event.extra[1].0, "meta_target");
    assert_eq!(c.event.extra[5], ("meta_level".to_string(), FieldValue::Text("WARN".to_string())));
    assert_eq!(c.event.platform, "rust");
    assert!(c.event.logger.is_none() && c.event.environment.is_none());
}

#[test]
fn layer_can_drop_fields_and_metadata() {
    let mut v = FieldVisitor::new();
    v.record_str("message", "x");
    let layer = SentryStrLayer::new().with_fields(false).with_metadata(false);
    let c = layer.capture(v, &metadata(TraceLevel::Error), "id".to_string(), ts()).unwrap();
    assert!(c.event.extra.is_empty());
    assert_eq!(c.event.message.as_deref(), Some("x"));
    assert!(!c.alert);
}

#[test]
fn layer_alerts_at_or_above_minimum() {
    let alert = AlertConfig { recipient: "r".to_string(), min_level: Level::Warning, use_nip17: true };
    let layer = SentryStrLayer::new().with_direct_messaging(alert);
    let c = layer.capture(FieldVisitor::new(), &metadata(TraceLevel::Error), "id".to_string(), ts()).unwrap();
    assert!(c.alert);
    let d = layer.capture(FieldVisitor::new(), &metadata(TraceLevel::Debug), "id".to_string(), ts()).unwrap();
    assert!(!d.alert);
}

#[test]
fn message_field_stays_out_of_extra_data() {
    let mut v = FieldVisitor::new();
    v.record_u64("a", 1);
    v.record_debug("message", "text".to_string());
    v.record_bool("b", true);
    let layer = SentryStrLayer::new().with_metadata(false);
    let c = layer.capture(v, &metadata(TraceLevel::Info), "id".to_string(), ts()).unwrap();
    assert_eq!(c.event.message.as_deref(), Some("text"));
    assert_eq!(
        c.event.extra,
        vec![("a".to_string(), FieldValue::UInt(1)), ("b".to_string(), FieldValue::Bool(true))]
    );
}

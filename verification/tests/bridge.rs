use rerun_bridge::Field;
use rerun_bridge::FieldValue;
use rerun_bridge::LogEvent;
use rerun_bridge::RerunLayer;
use rerun_bridge::Severity;
use rerun_bridge::SinkLevel;
use rerun_bridge::format_event;
use rerun_bridge::render_context;
use rerun_bridge::render_record;
use rerun_bridge::to_rerun_log_level;

fn field(key: &str, value: FieldValue) -> Field {
    Field { key: key.to_string(), value }
}

#[test]
fn level_map_covers_every_level() {
    assert_eq!(to_rerun_log_level(&Severity::Trace), SinkLevel::Trace);
    assert_eq!(to_rerun_log_level(&Severity::Debug), SinkLevel::Debug);
    assert_eq!(to_rerun_log_level(&Severity::Info), SinkLevel::Info);
    assert_eq!(to_rerun_log_level(&Severity::Warn), SinkLevel::Warn);
    assert_eq!(to_rerun_log_level(&Severity::Error), SinkLevel::Error);
}

#[test]
fn level_map_is_injective() {
    let levels = [
        Severity::Trace,
        Severity::Debug,
        Severity::Info,
        Severity::Warn,
        Severity::Error,
    ];
    for i in 0..levels.len() {
        for j in 0..levels.len() {
            if i != j {
                assert_ne!(to_rerun_log_level(&levels[i]), to_rerun_log_level(&levels[j]));
            }
        }
    }
}

#[test]
fn sink_labels_match_the_sink_vocabulary() {
    assert_eq!(to_rerun_log_level(&Severity::Trace).label(), "TRACE");
    assert_eq!(to_rerun_log_level(&Severity::Debug).label(), "DEBUG");
    assert_eq!(to_rerun_log_level(&Severity::Info).label(), "INFO");
    assert_eq!(to_rerun_log_level(&Severity::Warn).label(), "WARN");
    assert_eq!(to_rerun_log_level(&Severity::Error).label(), "ERROR");
}

#[test]
fn render_context_empty_chain_is_empty() {
    let chain: Vec<String> = Vec::new();
    assert_eq!(render_context(&chain), "");
}

#[test]
fn render_context_single_frame() {
    let chain = vec!["a".to_string()];
    assert_eq!(render_context(&chain), "a");
}

#[test]
fn render_context_joins_frames_with_double_colon() {
    let chain = vec!["a".to_string(), "b".to_string(), "c".to_string()];
    assert_eq!(render_context(&chain), "a::b::c");
}

#[test]
fn format_event_renders_values_not_keys() {
    let fields = vec![
        field("op", FieldValue::Str("select".to_string())),
        field("rows", FieldValue::U64(3)),
    ];
    let msg = format_event("", "db", &fields);
    assert_eq!(msg, "db: \"select\" 3 ");
    assert!(!msg.contains("op"));
    assert!(!msg.contains("rows"));
}

#[test]
fn format_event_with_context_prefix() {
    let fields = vec![
        field("op", FieldValue::Str("select".to_string())),
        field("rows", FieldValue::U64(3)),
    ];
    let msg = format_event("child::root", "db", &fields);
    assert!(msg.starts_with("child::root: db: "));
    assert_eq!(msg, "child::root: db: \"select\" 3 ");
}

#[test]
fn format_event_without_fields() {
    let fields: Vec<Field> = Vec::new();
    assert_eq!(format_event("", "db", &fields), "db: ");
}

#[test]
fn integer_and_bool_values_render_as_plain_text() {
    let fields = vec![
        field("a", FieldValue::I64(-42)),
        field("b", FieldValue::I64(0)),
        field("c", FieldValue::U64(18446744073709551615)),
        field("d", FieldValue::I64(i64::MIN)),
        field("e", FieldValue::Bool(true)),
        field("f", FieldValue::Bool(false)),
        field("g", FieldValue::Rendered("raw".to_string())),
    ];
    let msg = format_event("", "t", &fields);
    assert_eq!(msg, "t: -42 0 18446744073709551615 -9223372036854775808 true false raw ");
}

#[test]
fn string_values_render_debug_quoted() {
    let fields = vec![field("m", FieldValue::Str("a\"b\\c".to_string()))];
    let msg = format_event("", "t", &fields);
    assert_eq!(msg, "t: \"a\\\"b\\\\c\" ");
}

#[test]
fn warn_event_without_context_renders_expected_record() {
    let ev = LogEvent {
        target: "auth".to_string(),
        level: Severity::Warn,
        fields: vec![field("message", FieldValue::Str("token expired".to_string()))],
    };
    let chain: Vec<String> = Vec::new();
    let (msg, level) = render_record(&ev, &chain);
    assert_eq!(msg, "auth: \"token expired\" ");
    assert_eq!(level, SinkLevel::Warn);
    assert_eq!(level.label(), "WARN");
}

#[test]
fn forward_submits_one_record_per_event() {
    let rec = re_sdk::RecordingStreamBuilder::new("rerun_bridge_test")
        .buffered()
        .expect("buffered recording stream");
    let layer = RerunLayer { rec, path: "logs/tracing".to_string() };
    let ev = LogEvent {
        target: "auth".to_string(),
        level: Severity::Warn,
        fields: vec![field("message", FieldValue::Str("token expired".to_string()))],
    };
    let chain: Vec<String> = Vec::new();
    layer.forward(&ev, &chain);
}

#[test]
fn forward_returns_normally_when_the_sink_drops_records() {
    let layer = RerunLayer {
        rec: re_sdk::RecordingStream::disabled(),
        path: "logs/tracing".to_string(),
    };
    let ev = LogEvent {
        target: "auth".to_string(),
        level: Severity::Error,
        fields: vec![field("message", FieldValue::Str("sink is down".to_string()))],
    };
    let chain = vec!["child".to_string(), "root".to_string()];
    layer.forward(&ev, &chain);
}

#[test]
fn repeated_events_give_repeated_independent_records() {
    let ev = LogEvent {
        target: "db".to_string(),
        level: Severity::Info,
        fields: vec![field("rows", FieldValue::U64(3))],
    };
    let chain = vec!["child".to_string(), "root".to_string()];
    let (m1, l1) = render_record(&ev, &chain);
    let (m2, l2) = render_record(&ev, &chain);
    assert_eq!(m1, m2);
    assert_eq!(l1, l2);
    let layer = RerunLayer {
        rec: re_sdk::RecordingStream::disabled(),
        path: "logs/tracing".to_string(),
    };
    layer.forward(&ev, &chain);
    layer.forward(&ev, &chain);
}

//! Entry construction and rendering: backtrace gating, field ordering, the
//! default line format, the compact format, and the remote wire format.

use aptos_logger::entry::{Event, FieldValue, Key, LogEntry, Metadata};
use aptos_logger::format::{default_format, field_map_string, format_entry, wire_line, Formatter};
use aptos_logger::json::{render_json_string, JsonVal};
use aptos_logger::level::Level;

fn meta(level: Level) -> Metadata {
    Metadata::new(level, "app", "app::worker", "src/worker.rs", 42)
}

#[test]
fn backtrace_gating() {
    let err_on = LogEntry::new(Event::new(meta(Level::Error), None, vec![]), None, true, &None);
    assert!(err_on.backtrace.is_some());
    assert!(!err_on.backtrace.as_deref().unwrap().is_empty());

    let info_on = LogEntry::new(Event::new(meta(Level::Info), None, vec![]), None, true, &None);
    assert!(info_on.backtrace.is_none());

    let err_off = LogEntry::new(Event::new(meta(Level::Error), None, vec![]), None, false, &None);
    assert!(err_off.backtrace.is_none());
}

#[test]
fn field_map_keys_are_sorted() {
    let ev = Event::new(
        meta(Level::Info),
        None,
        vec![
            (Key::new("b"), FieldValue::Structured(JsonVal::UInt(2))),
            (Key::new("a"), FieldValue::Structured(JsonVal::UInt(1))),
            (Key::new("c"), FieldValue::Structured(JsonVal::UInt(3))),
        ],
    );
    let entry = LogEntry::new(ev, None, false, &None);
    let keys: Vec<&str> = entry.data.iter().map(|p| p.0.as_str()).collect();
    assert_eq!(keys, vec!["a", "b", "c"]);
    assert_eq!(field_map_string(&entry.data), "{\"a\":1,\"b\":2,\"c\":3}");
}

#[test]
fn later_field_replaces_earlier_same_key() {
    let ev = Event::new(
        meta(Level::Info),
        None,
        vec![
            (Key::new("k"), FieldValue::Structured(JsonVal::UInt(1))),
            (Key::new("k"), FieldValue::Structured(JsonVal::UInt(2))),
        ],
    );
    let entry = LogEntry::new(ev, None, false, &None);
    assert_eq!(field_map_string(&entry.data), "{\"k\":2}");
}

#[test]
fn unserializable_field_is_skipped() {
    let ev = Event::new(
        meta(Level::Info),
        None,
        vec![
            (Key::new("bad"), FieldValue::Unserializable),
            (Key::new("good"), FieldValue::Structured(JsonVal::Bool(true))),
        ],
    );
    let entry = LogEntry::new(ev, None, false, &None);
    assert_eq!(field_map_string(&entry.data), "{\"good\":true}");
}

#[test]
fn debug_and_display_fields_become_text() {
    let ev = Event::new(
        meta(Level::Info),
        None,
        vec![
            (Key::new("debugged"), FieldValue::DebugText("DebugStruct!".to_string())),
            (Key::new("displayed"), FieldValue::DisplayText("12345".to_string())),
        ],
    );
    let entry = LogEntry::new(ev, None, false, &None);
    assert_eq!(
        field_map_string(&entry.data),
        "{\"debugged\":\"DebugStruct!\",\"displayed\":\"12345\"}"
    );
}

fn fixed_entry() -> LogEntry {
    LogEntry {
        metadata: meta(Level::Info),
        thread_name: Some("worker-1".to_string()),
        backtrace: None,
        hostname: Some("node-a".to_string()),
        timestamp: "2022-03-07T05:03:03.123456Z".to_string(),
        data: vec![("foo".to_string(), JsonVal::UInt(5))],
        message: Some("This is a log".to_string()),
    }
}

#[test]
fn default_format_line() {
    let line = default_format(&fixed_entry());
    assert_eq!(
        line,
        "2022-03-07T05:03:03.123456Z [worker-1] INFO src/worker.rs:42 This is a log {\"foo\":5}"
    );
}

#[test]
fn default_format_omits_absent_segments() {
    let mut e = fixed_entry();
    e.thread_name = None;
    e.message = None;
    e.data = vec![];
    let line = default_format(&e);
    assert_eq!(line, "2022-03-07T05:03:03.123456Z INFO src/worker.rs:42");
}

#[test]
fn compact_format_line() {
    let line = format_entry(Formatter::Compact, &fixed_entry());
    assert_eq!(line, "INFO This is a log");
}

#[test]
fn wire_line_is_self_contained() {
    let wire = wire_line(&fixed_entry());
    let expected = "{\"level\":\"INFO\",\"target\":\"app\",\"module\":\"app::worker\",\"file\":\"src/worker.rs\",\"line\":42,\"thread_name\":\"worker-1\",\"hostname\":\"node-a\",\"timestamp\":\"2022-03-07T05:03:03.123456Z\",\"data\":{\"foo\":5},\"message\":\"This is a log\"}\n";
    assert_eq!(wire, expected);
}

#[test]
fn wire_line_synthesizes_missing_message() {
    let mut e = fixed_entry();
    e.message = None;
    e.thread_name = None;
    e.hostname = None;
    let wire = wire_line(&e);
    assert!(wire.contains("\"message\":\"{\\\"foo\\\":5}\""));
}

#[test]
fn json_rendering_nested() {
    let v = JsonVal::Obj(vec![
        ("list".to_string(), JsonVal::Arr(vec![JsonVal::Null, JsonVal::Int(-7), JsonVal::UInt(0)])),
        ("text".to_string(), JsonVal::Str("a\"b\\c\nd".to_string())),
        ("flag".to_string(), JsonVal::Bool(false)),
    ]);
    assert_eq!(
        render_json_string(&v),
        "{\"list\":[null,-7,0],\"text\":\"a\\\"b\\\\c\\nd\",\"flag\":false}"
    );
}

#[test]
fn entry_getters_echo_fields() {
    let entry = fixed_entry();
    assert_eq!(entry.metadata().level(), Level::Info);
    assert_eq!(entry.metadata().target(), "app");
    assert_eq!(entry.metadata().module(), "app::worker");
    assert_eq!(entry.metadata().file(), "src/worker.rs");
    assert_eq!(entry.metadata().line(), 42);
    assert_eq!(entry.metadata().location(), "src/worker.rs:42");
    assert_eq!(entry.thread_name(), Some("worker-1"));
    assert_eq!(entry.hostname(), Some("node-a"));
    assert_eq!(entry.timestamp(), "2022-03-07T05:03:03.123456Z");
    assert_eq!(entry.message(), Some("This is a log"));
    assert_eq!(entry.data().len(), 1);
    assert!(entry.backtrace().is_none());
}

#[test]
fn basic() {
    let number = 12345u64;
    let ev = Event::new(
        Metadata::new(Level::Info, "app", "app::worker", "src/worker.rs", 42),
        Some("This is a log".to_string()),
        vec![
            (Key::new("foo"), FieldValue::Structured(JsonVal::UInt(5))),
            (Key::new("bar"), FieldValue::Structured(JsonVal::Str("foo_bar".to_string()))),
            (Key::new("display"), FieldValue::DisplayText(format!("{}", number))),
            (Key::new("test"), FieldValue::Structured(JsonVal::Bool(true))),
            (Key::new("category"), FieldValue::Structured(JsonVal::Str("name".to_string()))),
        ],
    );
    let entry = LogEntry::new(ev, Some("named thread"), true, &None);

    assert_eq!(entry.metadata.level(), Level::Info);
    assert_eq!(entry.metadata.target(), "app");
    assert_eq!(entry.metadata.module(), "app::worker");
    assert_eq!(entry.metadata.file(), "src/worker.rs");
    assert_eq!(entry.message.as_deref(), Some("This is a log"));
    assert!(entry.backtrace.is_none());
    assert!(!entry.timestamp.is_empty());
    assert_eq!(entry.thread_name.as_deref(), Some("named thread"));

    let lookup = |k: &str| -> &JsonVal {
        &entry.data.iter().find(|p| p.0 == k).expect("field present").1
    };
    assert!(matches!(lookup("foo"), JsonVal::UInt(5)));
    assert!(matches!(lookup("bar"), JsonVal::Str(s) if s == "foo_bar"));
    assert!(matches!(lookup("display"), JsonVal::Str(s) if s == "12345"));
    assert!(matches!(lookup("test"), JsonVal::Bool(true)));
    assert!(matches!(lookup("category"), JsonVal::Str(s) if s == "name"));

    let err_entry = LogEntry::new(
        Event::new(
            Metadata::new(Level::Error, "app", "app::worker", "src/worker.rs", 43),
            Some("This is an error log".to_string()),
            vec![],
        ),
        None,
        true,
        &None,
    );
    assert!(err_entry.backtrace.is_some());
}

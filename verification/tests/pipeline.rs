//! End-to-end pipeline behaviour: gating, backpressure, flush ordering,
//! independent sink filtering, and the retry-then-drop policy.

use aptos_logger::entry::{Event, FieldValue, Key, Metadata};
use aptos_logger::facade::AptosDataBuilder;
use aptos_logger::filter::Filter;
use aptos_logger::json::JsonVal;
use aptos_logger::level::{Level, LevelFilter};
use aptos_logger::service::{LoggerService, ServiceCounters};
use aptos_logger::transport::{FailingTransport, MemoryTransport};
use aptos_logger::writer::VecWriter;

fn meta(level: Level) -> Metadata {
    Metadata::new(level, "app", "app::worker", "src/worker.rs", 42)
}

fn event(level: Level, message: &str) -> Event {
    Event::new(meta(level), Some(message.to_string()), vec![])
}

#[test]
fn disabled_record_is_a_no_op() {
    let (mut facade, _svc) = AptosDataBuilder::new()
        .printer(VecWriter::new())
        .level(Level::Info)
        .build();
    facade.set_filter(Filter::from_level(LevelFilter::Off));
    facade.set_remote_filter(Filter::from_level(LevelFilter::Off));

    facade.record(event(Level::Error, "should vanish"), Some("main"));
    facade.record(event(Level::Trace, "should vanish too"), None);

    assert_eq!(facade.printer.as_ref().unwrap().logs.len(), 0);
    assert_eq!(facade.dropped_count(), 0);
}

#[test]
fn sync_record_writes_immediately() {
    let (mut facade, svc) = AptosDataBuilder::new()
        .printer(VecWriter::new())
        .level(Level::Info)
        .build();
    assert!(svc.is_none());

    facade.record(event(Level::Info, "hello"), None);
    facade.record(event(Level::Debug, "filtered out"), None);

    let logs = &facade.printer.as_ref().unwrap().logs;
    assert_eq!(logs.len(), 1);
    assert!(logs[0].contains("hello"));
    assert!(facade.flush().is_none());
}

#[test]
fn backpressure_drops_beyond_capacity() {
    let capacity = 4;
    let extra = 3;
    let (mut facade, svc) = AptosDataBuilder::new()
        .printer(VecWriter::new())
        .level(Level::Info)
        .is_async(true)
        .channel_size(capacity)
        .build();
    assert!(svc.is_some());

    for i in 0..(capacity + extra) {
        facade.record(event(Level::Info, &format!("entry {}", i)), None);
    }

    assert_eq!(facade.dropped_count(), extra as u64);
    assert_eq!(facade.sender.as_ref().unwrap().len(), capacity);
}

#[test]
fn flush_marker_orders_behind_entries() {
    let (mut facade, svc) = AptosDataBuilder::new()
        .printer(VecWriter::new())
        .level(Level::Info)
        .is_async(true)
        .channel_size(16)
        .build();
    let mut svc = svc.unwrap();

    facade.record(event(Level::Info, "first"), None);
    facade.record(event(Level::Info, "second"), None);
    facade.record(event(Level::Info, "third"), None);
    let token = facade.flush().expect("async mode returns a token");

    let mut unused = MemoryTransport::new();
    svc.run(&mut facade, &mut unused);

    let printer = svc.printer.as_ref().unwrap();
    assert_eq!(printer.logs.len(), 3);
    assert!(printer.logs[0].contains("first"));
    assert!(printer.logs[1].contains("second"));
    assert!(printer.logs[2].contains("third"));
    assert_eq!(svc.flush_acks, vec![token]);
    assert_eq!(facade.sender.as_ref().unwrap().len(), 0);
    assert_eq!(svc.counters.processed, 3);
    assert_eq!(unused.len(), 0);
}

#[test]
fn independent_sink_filtering() {
    let (mut facade, svc) = AptosDataBuilder::new()
        .printer(VecWriter::new())
        .level(Level::Debug)
        .is_async(true)
        .address("collector.example:5044".to_string())
        .build();
    let mut svc = svc.unwrap();
    facade.set_remote_filter(Filter::from_level(LevelFilter::Off));

    let n = 5;
    for i in 0..n {
        facade.record(event(Level::Debug, &format!("debug {}", i)), None);
    }

    let mut transport = MemoryTransport::new();
    svc.run(&mut facade, &mut transport);

    assert_eq!(svc.printer.as_ref().unwrap().logs.len(), n);
    assert_eq!(transport.len(), 0);
    assert_eq!(svc.counters.sent, 0);
    assert_eq!(svc.counters.send_errors, 0);
}

#[test]
fn remote_delivery_sends_wire_lines() {
    let (mut facade, svc) = AptosDataBuilder::new()
        .printer(VecWriter::new())
        .level(Level::Info)
        .remote_level(Level::Error)
        .is_async(true)
        .address("collector.example:5044".to_string())
        .build();
    let mut svc = svc.unwrap();

    facade.record(event(Level::Info, "local only"), None);
    facade.record(event(Level::Error, "goes remote"), None);

    let mut transport = MemoryTransport::new();
    svc.run(&mut facade, &mut transport);

    assert_eq!(svc.printer.as_ref().unwrap().logs.len(), 2);
    assert_eq!(transport.len(), 1);
    let wire = transport.message_at(0);
    assert!(wire.ends_with('\n'));
    assert!(wire.contains("\"level\":\"ERROR\""));
    assert!(wire.contains("\"message\":\"goes remote\""));
    assert_eq!(svc.counters.sent, 1);
    assert_eq!(svc.counters.send_errors, 0);
}

#[test]
fn remote_retry_then_drop() {
    let entry = {
        let ev = event(Level::Error, "cannot be delivered");
        aptos_logger::entry::LogEntry::new(ev, None, false, &None)
    };
    let mut counters = ServiceCounters::new();
    let mut transport = FailingTransport::new();

    LoggerService::<VecWriter>::write_to_logstash(&mut counters, &mut transport, entry);

    assert_eq!(transport.calls, 2);
    assert_eq!(counters.send_errors, 1);
    assert_eq!(counters.sent, 0);
    assert_eq!(counters.sent_bytes, 0);
}

#[test]
fn queue_drop_counts_exactly() {
    let mut q = aptos_logger::queue::LogQueue::new(2);
    let mk = || {
        aptos_logger::entry::LogEntry::new(event(Level::Info, "x"), None, false, &None)
    };
    assert!(q.try_send(mk()));
    assert!(q.try_send(mk()));
    assert!(!q.try_send(mk()));
    assert!(!q.try_send(mk()));
    assert_eq!(q.dropped_count(), 2);
    assert_eq!(q.len(), 2);
}

#[test]
fn end_to_end_sync_scenario() {
    let (mut facade, svc) = AptosDataBuilder::new()
        .printer(VecWriter::new())
        .level(Level::Info)
        .is_async(false)
        .build();
    assert!(svc.is_none());

    let ev = Event::new(
        meta(Level::Info),
        Some("This is a log".to_string()),
        vec![(Key::new("foo"), FieldValue::Structured(JsonVal::UInt(5)))],
    );
    facade.record(ev, None);

    let logs = &facade.printer.as_ref().unwrap().logs;
    assert_eq!(logs.len(), 1);
    assert!(logs[0].contains("INFO"));
    assert!(logs[0].contains("This is a log"));
    assert!(logs[0].contains("{\"foo\":5}"));
}

#[test]
fn record_with_fields_reaches_writer_with_sorted_map() {
    let (mut facade, _svc) = AptosDataBuilder::new()
        .printer(VecWriter::new())
        .level(Level::Info)
        .build();
    let ev = Event::new(
        meta(Level::Info),
        None,
        vec![
            (Key::new("b"), FieldValue::Structured(JsonVal::UInt(2))),
            (Key::new("a"), FieldValue::Structured(JsonVal::UInt(1))),
            (Key::new("c"), FieldValue::Structured(JsonVal::UInt(3))),
        ],
    );
    facade.record(ev, None);
    let logs = &facade.printer.as_ref().unwrap().logs;
    assert_eq!(logs.len(), 1);
    assert!(logs[0].contains("{\"a\":1,\"b\":2,\"c\":3}"));
}

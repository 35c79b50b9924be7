//! Dispatch tests: ordering, delivery completeness, teardown draining, the
//! producer-side failure mode, and the consumer's replay loop.

use async_drain::dispatch::{AsyncCore, AsyncMsg, DispatchError, MemorySink, Sink, replay};
use async_drain::level::Level;
use async_drain::record::{AsyncRecord, ContextFields};
use async_drain::value::{OwnedKV, OwnedValue};

fn record(msg: &str, level: Level, ctx: &ContextFields) -> AsyncRecord {
    AsyncRecord::new(
        msg.to_owned(),
        level,
        "file.rs".to_owned(),
        10,
        4,
        "handler".to_owned(),
        "app::server".to_owned(),
        "server".to_owned(),
        ctx,
        Vec::new(),
    )
}

#[test]
fn scenario_two_producers_one_valid_interleaving() {
    // Thread A logs "a1" then "a2"; thread B logs "b1".  The dispatch queue
    // serializes the enqueues; this run exercises the interleaving
    // a1, b1, a2, which must keep A's internal order.
    let ctx = ContextFields::new(Vec::new());
    let mut core = AsyncCore::new(MemorySink::new());
    core.send(record("a1", Level::Info, &ctx)).unwrap();
    core.send(record("b1", Level::Info, &ctx)).unwrap();
    core.send(record("a2", Level::Info, &ctx)).unwrap();
    core.shutdown();

    let records = &core.sink().records;
    assert_eq!(records.len(), 3);
    let msgs: Vec<&str> = records.iter().map(|r| r.msg.as_str()).collect();
    let pos_a1 = msgs.iter().position(|m| *m == "a1").unwrap();
    let pos_a2 = msgs.iter().position(|m| *m == "a2").unwrap();
    assert!(pos_a1 < pos_a2);
    assert!(msgs.contains(&"b1"));
}

#[test]
fn teardown_drains_every_pending_record() {
    let ctx = ContextFields::new(Vec::new());
    let mut core = AsyncCore::new(MemorySink::new());
    for i in 0..5u32 {
        core.send(record(&format!("m{}", i), Level::Debug, &ctx)).unwrap();
    }
    assert_eq!(core.pending_len(), 5);
    core.shutdown();
    assert_eq!(core.pending_len(), 0);
    let records = &core.sink().records;
    assert_eq!(records.len(), 5);
    for i in 0..5usize {
        assert_eq!(records[i].msg, format!("m{}", i));
    }
}

#[test]
fn each_record_delivered_exactly_once() {
    let ctx = ContextFields::new(Vec::new());
    let mut core = AsyncCore::new(MemorySink::new());
    core.send(record("one", Level::Info, &ctx)).unwrap();
    core.send(record("two", Level::Info, &ctx)).unwrap();
    core.send(record("three", Level::Info, &ctx)).unwrap();
    // The consumer replays one record before teardown, the rest during it.
    assert!(core.process_next());
    core.shutdown();
    let records = &core.sink().records;
    assert_eq!(records.len(), 3);
    for msg in ["one", "two", "three"] {
        assert_eq!(records.iter().filter(|r| r.msg == msg).count(), 1);
    }
    assert_eq!(records[0].msg, "one");
    assert_eq!(records[1].msg, "two");
    assert_eq!(records[2].msg, "three");
}

#[test]
fn send_after_teardown_is_refused() {
    let ctx = ContextFields::new(Vec::new());
    let mut core = AsyncCore::new(MemorySink::new());
    core.shutdown();
    let res = core.send(record("late", Level::Error, &ctx));
    assert_eq!(res, Err(DispatchError::ChannelClosed));
    assert_eq!(core.sink().records.len(), 0);
}

#[test]
fn log_assembles_and_enqueues_the_event() {
    let ctx = ContextFields::new(vec![OwnedKV {
        key: "request".to_owned(),
        value: OwnedValue::U64(17),
    }]);
    let mut core = AsyncCore::new(MemorySink::new());
    let mut fields = Vec::new();
    fields.push(OwnedKV { key: "ok".to_owned(), value: OwnedValue::Bool(true) });
    core.log(
        "done in 3ms".to_owned(),
        Level::Warning,
        "srv.rs".to_owned(),
        42,
        8,
        "respond".to_owned(),
        "app::srv".to_owned(),
        "http".to_owned(),
        &ctx,
        fields,
    )
    .unwrap();
    core.shutdown();
    let records = &core.sink().records;
    assert_eq!(records.len(), 1);
    let r = &records[0];
    assert_eq!(r.msg, "done in 3ms");
    assert_eq!(r.level, Level::Warning);
    assert_eq!(r.file, "srv.rs");
    assert_eq!(r.line, 42);
    assert_eq!(r.column, 8);
    assert_eq!(r.function, "respond");
    assert_eq!(r.module, "app::srv");
    assert_eq!(r.target, "http");
    assert_eq!(r.record_values.len(), 1);
    assert_eq!(r.record_values[0].key, "ok");
    assert_eq!(r.record_values[0].value, OwnedValue::Bool(true));
    let shared = r.logger_values.entries();
    assert_eq!(shared.len(), 1);
    assert_eq!(shared[0].key, "request");
    assert_eq!(shared[0].value, OwnedValue::U64(17));
}

#[test]
fn process_next_replays_in_submission_order() {
    let ctx = ContextFields::new(Vec::new());
    let mut core = AsyncCore::new(MemorySink::new());
    assert!(!core.process_next());
    core.send(record("first", Level::Info, &ctx)).unwrap();
    core.send(record("second", Level::Info, &ctx)).unwrap();
    assert!(core.process_next());
    assert_eq!(core.sink().records.len(), 1);
    assert_eq!(core.sink().records[0].msg, "first");
    assert_eq!(core.pending_len(), 1);
}

#[test]
fn replay_stops_at_the_shutdown_signal() {
    let ctx = ContextFields::new(Vec::new());
    let mut sink = MemorySink::new();
    let msgs = vec![
        AsyncMsg::Record(record("kept1", Level::Info, &ctx)),
        AsyncMsg::Record(record("kept2", Level::Info, &ctx)),
        AsyncMsg::Finish,
        AsyncMsg::Record(record("dropped", Level::Info, &ctx)),
    ];
    let stopped = replay(&mut sink, msgs);
    assert!(stopped);
    assert_eq!(sink.records.len(), 2);
    assert_eq!(sink.records[0].msg, "kept1");
    assert_eq!(sink.records[1].msg, "kept2");
}

#[test]
fn replay_without_signal_consumes_everything() {
    let ctx = ContextFields::new(Vec::new());
    let mut sink = MemorySink::new();
    let msgs = vec![
        AsyncMsg::Record(record("one", Level::Info, &ctx)),
        AsyncMsg::Record(record("two", Level::Info, &ctx)),
    ];
    let stopped = replay(&mut sink, msgs);
    assert!(!stopped);
    assert_eq!(sink.records.len(), 2);
}

#[test]
fn shared_context_is_not_copied_per_record() {
    let ctx = ContextFields::new(vec![OwnedKV {
        key: "node".to_owned(),
        value: OwnedValue::Str("alpha".to_owned()),
    }]);
    let first = record("x", Level::Info, &ctx);
    let second = record("y", Level::Info, &ctx);
    assert_eq!(first.logger_values.entries(), second.logger_values.entries());
    assert_eq!(first.logger_values.entries()[0].key, "node");
}

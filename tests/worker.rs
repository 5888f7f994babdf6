use consumer_pool::constants::{HEARTBEAT_INTERVAL_SECONDS, RETRY_BACKOFF_MS};
use consumer_pool::worker::{
    entry_payload, heartbeat_step, plan_batch, worker_next, HeartbeatAction, HeartbeatEvent, StreamEntry,
    WorkerAction, NEW_CURSOR, PENDING_CURSOR,
};

fn entry(id: &str, payload: &[u8]) -> StreamEntry {
    StreamEntry { id: id.to_string(), fields: vec![("message".to_string(), Some(payload.to_vec()))] }
}

#[test]
fn single_message_reaches_the_handler_and_is_acked() {
    let batch = vec![entry("1700000000000-0", br#"{"title":"t1"}"#)];
    let plan = plan_batch(&batch).expect("non-empty batch");
    assert_eq!(plan.payloads, vec![Some(r#"{"title":"t1"}"#.to_string())]);
    assert_eq!(plan.ack_ids, vec!["1700000000000-0".to_string()]);
}

#[test]
fn every_id_is_acked_whatever_the_handler_does() {
    let batch = vec![
        entry("1-0", b"ok"),
        entry("2-0", b"payload the handler rejects"),
        StreamEntry { id: "3-0".to_string(), fields: vec![("other".to_string(), Some(b"x".to_vec()))] },
        entry("4-0", &[0xff, 0xfe]),
    ];
    let plan = plan_batch(&batch).expect("non-empty batch");
    assert_eq!(plan.ack_ids, vec!["1-0".to_string(), "2-0".to_string(), "3-0".to_string(), "4-0".to_string()]);
    assert_eq!(plan.payloads[0], Some("ok".to_string()));
    assert_eq!(plan.payloads[1], Some("payload the handler rejects".to_string()));
    assert_eq!(plan.payloads[2], None);
    assert_eq!(plan.payloads[3], None);
}

#[test]
fn empty_batch_needs_no_ack() {
    assert!(plan_batch(&Vec::new()).is_none());
}

#[test]
fn payload_is_found_among_other_fields() {
    let e = StreamEntry {
        id: "5-0".to_string(),
        fields: vec![
            ("kind".to_string(), Some(b"a".to_vec())),
            ("message".to_string(), Some("héllo".as_bytes().to_vec())),
        ],
    };
    assert_eq!(entry_payload(&e), Some("héllo".to_string()));
    let not_bytes = StreamEntry { id: "6-0".to_string(), fields: vec![("message".to_string(), None)] };
    assert_eq!(entry_payload(&not_bytes), None);
}

#[test]
fn worker_exits_once_shutdown_is_signalled() {
    assert_eq!(worker_next(true, false), WorkerAction::Exit);
    assert_eq!(worker_next(true, true), WorkerAction::Exit);
    assert_eq!(worker_next(false, false), WorkerAction::ReadCycle);
    assert_eq!(worker_next(false, true), WorkerAction::Backoff { delay_ms: RETRY_BACKOFF_MS });
    assert_eq!(RETRY_BACKOFF_MS, 5000);
}

#[test]
fn read_cycle_cursors() {
    assert_eq!(PENDING_CURSOR, "0");
    assert_eq!(NEW_CURSOR, ">");
}

#[test]
fn heartbeat_tick_writes_a_fresh_record() {
    assert_eq!(HEARTBEAT_INTERVAL_SECONDS, 5);
    match heartbeat_step("task_type_a", "task_consumer_0", false, HeartbeatEvent::Tick { now: 1234 }) {
        HeartbeatAction::Write { field, record } => {
            assert_eq!(field, "task_consumer_0");
            assert_eq!(record.stream_name, "task_type_a");
            assert_eq!(record.consumer_name, "task_consumer_0");
            assert_eq!(record.last_heartbeat, 1234);
        }
        _ => panic!("a tick writes a record"),
    }
}

#[test]
fn heartbeat_stops_on_shutdown() {
    assert!(matches!(
        heartbeat_step("s", "c", true, HeartbeatEvent::Tick { now: 1 }),
        HeartbeatAction::Exit
    ));
    assert!(matches!(heartbeat_step("s", "c", true, HeartbeatEvent::ShutdownChanged), HeartbeatAction::Exit));
    assert!(matches!(heartbeat_step("s", "c", false, HeartbeatEvent::ShutdownChanged), HeartbeatAction::Wait));
}

use contrib_receivers::ingest::{
    record_event, source_error, ControlMsg, IngestEvent, IngestOutcome, IngestState,
    ReceiverErrorKind,
};
use contrib_receivers::log_record::SourceLogRecord;
use contrib_receivers::logs_batch::{build_logs_batch, build_otap_logs, timestamp_from_nanos};

fn record(name: &str, body: &str) -> SourceLogRecord {
    SourceLogRecord::new(name.to_string(), body.to_string())
}

#[test]
fn builds_one_arrow_row_per_source_record() {
    let records = vec![record("first", "first body"), record("second", "second body")];
    let batch = build_otap_logs(&records).expect("build source records");
    assert_eq!(batch.num_rows(), 2);
}

#[test]
fn new_record_is_informational() {
    let r = record("e", "b");
    assert_eq!(r.event_name(), "e");
    assert_eq!(r.body(), "b");
    assert_eq!(r.severity_number(), Some(9));
    assert_eq!(r.severity_text(), "INFO");
}

#[test]
fn record_with_severity_text_has_no_number() {
    let r = SourceLogRecord::new_with_severity_text("e".into(), "b".into(), "WARN".into());
    assert_eq!(r.severity_number(), None);
    assert_eq!(r.severity_text(), "WARN");
}

#[test]
fn batch_rows_follow_records() {
    let records = vec![record("first", "first body"), record("second", "second body")];
    let batch = build_logs_batch(&records, Ok(1_000)).expect("batch");
    let rows = batch.rows();
    assert_eq!(rows.len(), 2);
    assert_eq!(rows[0].id, 0);
    assert_eq!(rows[1].id, 1);
    assert_eq!(rows[1].body, "second body");
    assert_eq!(rows[1].event_name, "second");
    assert_eq!(rows[0].severity_text, "INFO");
    assert_eq!(rows[0].severity_number, Some(9));
    assert_eq!(rows[0].time_unix_nano, 1_000);
    assert_eq!(rows[0].observed_time_unix_nano, 1_000);
    assert_eq!(rows[0].dropped_attributes_count, 0);
    assert_eq!(rows[0].resource_id, 0);
    assert_eq!(rows[0].scope_id, 0);
}

#[test]
fn clock_error_is_reported() {
    let records = vec![record("a", "b")];
    let err = build_logs_batch(&records, Err("clock before epoch".to_string())).err().unwrap();
    assert_eq!(err, "clock before epoch");
}

#[test]
fn too_many_records_are_refused() {
    let records: Vec<SourceLogRecord> = (0..65537).map(|_| record("a", "b")).collect();
    let err = build_logs_batch(&records, Ok(1)).err().unwrap();
    assert_eq!(err, "log batch contains more than 65536 records");
    let records: Vec<SourceLogRecord> = (0..65536).map(|_| record("a", "b")).collect();
    let batch = build_logs_batch(&records, Ok(1)).expect("largest batch");
    assert_eq!(batch.num_rows(), 65536);
    assert_eq!(batch.rows()[65535].id, 65535);
}

#[test]
fn timestamp_saturates() {
    assert_eq!(timestamp_from_nanos(5), 5);
    assert_eq!(timestamp_from_nanos(i64::MAX as u128), i64::MAX);
    assert_eq!(timestamp_from_nanos(u128::MAX), i64::MAX);
}

#[test]
fn empty_batch_builds_no_rows() {
    let batch = build_logs_batch(&Vec::new(), Ok(7)).expect("empty");
    assert_eq!(batch.num_rows(), 0);
}

#[test]
fn full_batch_is_flushed() {
    let mut state = IngestState::new("recv".to_string(), 2);
    let a = state.on_event(IngestEvent::Record(record("a", "1")));
    assert!(a.flush.is_empty());
    assert!(matches!(a.outcome, IngestOutcome::Continue));
    assert_eq!(state.pending().len(), 1);
    let a = state.on_event(IngestEvent::Record(record("a", "2")));
    assert_eq!(a.flush.len(), 2);
    assert_eq!(a.flush[0].body(), "1");
    assert_eq!(a.flush[1].body(), "2");
    assert!(!a.notify_drained);
    assert!(state.pending().is_empty());
}

#[test]
fn source_end_flushes_and_stops_reading() {
    let mut state = IngestState::new("recv".to_string(), 3);
    state.on_event(IngestEvent::Record(record("a", "1")));
    assert!(state.should_poll_source());
    let a = state.on_event(IngestEvent::SourceEnd);
    assert_eq!(a.flush.len(), 1);
    assert!(matches!(a.outcome, IngestOutcome::Continue));
    assert!(!state.should_poll_source());
    let a = state.on_event(IngestEvent::Control(ControlMsg::Other));
    assert!(a.flush.is_empty());
    assert!(matches!(a.outcome, IngestOutcome::Continue));
}

#[test]
fn drain_flushes_pending_and_notifies() {
    let mut state = IngestState::new("recv".to_string(), 10);
    state.on_event(IngestEvent::Record(record("a", "1")));
    state.on_event(IngestEvent::Record(record("a", "2")));
    let a = state.on_event(IngestEvent::Control(ControlMsg::DrainIngress));
    assert_eq!(a.flush.len(), 2);
    assert!(a.notify_drained);
    assert!(matches!(a.outcome, IngestOutcome::Finished));
    assert!(state.pending().is_empty());
}

#[test]
fn shutdown_drops_pending() {
    let mut state = IngestState::new("recv".to_string(), 10);
    state.on_event(IngestEvent::Record(record("a", "1")));
    let a = state.handle_control(ControlMsg::Shutdown);
    assert!(a.flush.is_empty());
    assert!(!a.notify_drained);
    assert!(matches!(a.outcome, IngestOutcome::Finished));
}

#[test]
fn source_failure_is_a_transport_error() {
    let mut state = IngestState::new("recv".to_string(), 10);
    let a = state.on_event(IngestEvent::SourceFailed {
        message: "boom".to_string(),
        source_detail: "inner".to_string(),
    });
    match a.outcome {
        IngestOutcome::Failed(e) => {
            assert_eq!(e.receiver, "recv");
            assert_eq!(e.kind, ReceiverErrorKind::Transport);
            assert_eq!(e.error, "boom");
            assert_eq!(e.source_detail, "inner");
        }
        _ => panic!("expected a failure"),
    }
}

#[test]
fn source_error_keeps_message_and_detail() {
    let e = source_error(&"r".to_string(), "m".to_string(), "d".to_string());
    assert_eq!(e.receiver, "r");
    assert_eq!(e.kind, ReceiverErrorKind::Transport);
    assert_eq!(e.error, "m");
    assert_eq!(e.source_detail, "d");
}

#[test]
fn records_sent_in_order_then_drained() {
    // Law on concrete values: batches then the drain deliver every record once, in order.
    let mut state = IngestState::new("recv".to_string(), 2);
    let mut sent: Vec<String> = Vec::new();
    for i in 0..5 {
        let a = state.on_event(IngestEvent::Record(record("e", &i.to_string())));
        assert!(a.flush.len() <= 2);
        sent.extend(a.flush.iter().map(|r| r.body().clone()));
    }
    let a = state.on_event(IngestEvent::Control(ControlMsg::DrainIngress));
    sent.extend(a.flush.iter().map(|r| r.body().clone()));
    assert_eq!(sent, vec!["0", "1", "2", "3", "4"]);
}

#[test]
fn record_event_maps_end() {
    assert!(matches!(record_event(None), IngestEvent::SourceEnd));
    assert!(matches!(record_event(Some(record("a", "b"))), IngestEvent::Record(_)));
}

#[test]
fn encode_records_of_nothing_sends_nothing() {
    let state = IngestState::new("recv".to_string(), 2);
    assert!(matches!(state.encode_records(&Vec::new()), Ok(None)));
    let batch = state.encode_records(&vec![record("a", "b")]).ok().unwrap().unwrap();
    assert_eq!(batch.num_rows(), 1);
    assert!(batch.rows()[0].time_unix_nano > 0);
}

#[test]
fn encode_records_refuses_oversized_batch() {
    let state = IngestState::new("recv".to_string(), 100_000);
    let records: Vec<SourceLogRecord> = (0..65537).map(|_| record("a", "b")).collect();
    let e = state.encode_records(&records).err().unwrap();
    assert_eq!(e.receiver, "recv");
    assert_eq!(e.kind, ReceiverErrorKind::Other);
    assert_eq!(e.error, "log batch contains more than 65536 records");
    assert_eq!(e.source_detail, "");
}

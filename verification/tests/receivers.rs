use contrib_receivers::config::ConfigError;
use contrib_receivers::ingest::IngestEvent;
use contrib_receivers::postgres::{
    default_batch_size, default_body_column, default_event_name, default_severity_text_column,
    ConnectionEnd, PostgresPoll, PostgresReceiver, PostgresReceiverConfig, PostgresSourceError,
    RowCells, POSTGRES_RECEIVER_URN,
};
use contrib_receivers::text_file::{
    FileOperation, TextFileReceiver, TextFileReceiverConfig, TextFileSource,
    TextFileSourceError, TEXT_FILE_RECEIVER_URN,
};

fn pg_config() -> PostgresReceiverConfig {
    PostgresReceiverConfig::from_fields("PG_URL".into(), "select 1".into(), None, None, None, None)
        .expect("config")
}

#[test]
fn postgres_defaults() {
    assert_eq!(default_body_column(), "message");
    assert_eq!(default_severity_text_column(), "severity_text");
    assert_eq!(default_event_name(), "postgres.row");
    assert_eq!(default_batch_size(), 1000);
    assert_eq!(POSTGRES_RECEIVER_URN, "urn:otel:receiver:postgres");
    assert_eq!(TEXT_FILE_RECEIVER_URN, "urn:otel:receiver:text_file");
    let c = pg_config();
    assert_eq!(c.connection_string_env(), "PG_URL");
    assert_eq!(c.query(), "select 1");
    assert_eq!(c.body_column(), "message");
    assert_eq!(c.severity_text_column(), "severity_text");
    assert_eq!(c.event_name(), "postgres.row");
    assert_eq!(c.batch_size(), 1000);
}

#[test]
fn postgres_config_keeps_given_fields() {
    let c = PostgresReceiverConfig::from_fields(
        "V".into(),
        "q".into(),
        Some("msg".into()),
        Some("level".into()),
        Some("evt".into()),
        Some(5),
    )
    .expect("config");
    assert_eq!(c.body_column(), "msg");
    assert_eq!(c.severity_text_column(), "level");
    assert_eq!(c.event_name(), "evt");
    assert_eq!(c.batch_size(), 5);
}

#[test]
fn zero_batch_size_is_refused() {
    let e = PostgresReceiverConfig::from_fields("V".into(), "q".into(), None, None, None, Some(0));
    assert!(matches!(e, Err(ConfigError::ZeroBatchSize)));
    let e = TextFileReceiverConfig::from_fields("/tmp/x".into(), Some(0));
    assert!(matches!(e, Err(ConfigError::ZeroBatchSize)));
}

#[test]
fn postgres_receiver_starts_with_configured_batch() {
    let receiver = PostgresReceiver::new(pg_config());
    let state = receiver.ingest_state("node".into());
    assert_eq!(state.batch_size(), 1000);
    assert_eq!(state.receiver(), "node");
    assert!(state.pending().is_empty());
    assert!(state.should_poll_source());
    let source = receiver.source();
    assert_eq!(source.body_column(), "message");
    assert_eq!(source.severity_text_column(), "severity_text");
}

#[test]
fn row_maps_to_record() {
    let source = PostgresReceiver::new(pg_config()).source();
    let r = source
        .map_row(RowCells { body: Ok("hello".into()), severity_text: Ok("WARN".into()) })
        .ok()
        .unwrap();
    assert_eq!(r.event_name(), "postgres.row");
    assert_eq!(r.body(), "hello");
    assert_eq!(r.severity_text(), "WARN");
    assert_eq!(r.severity_number(), None);
}

#[test]
fn missing_body_column_is_reported_first() {
    let source = PostgresReceiver::new(pg_config()).source();
    let e = source
        .map_row(RowCells { body: Err("was NULL".into()), severity_text: Err("other".into()) })
        .err()
        .unwrap();
    match &e {
        PostgresSourceError::Column { column, detail } => {
            assert_eq!(column, "message");
            assert_eq!(detail, "was NULL");
        }
        _ => panic!("expected a column error"),
    }
    assert_eq!(e.message(), "PostgreSQL row column 'message' must contain a non-NULL text value");
    assert_eq!(e.source_detail(), "was NULL");
    let e = source
        .map_row(RowCells { body: Ok("b".into()), severity_text: Err("other".into()) })
        .err()
        .unwrap();
    assert_eq!(e.message(), "PostgreSQL row column 'severity_text' must contain a non-NULL text value");
}

#[test]
fn postgres_poll_outcomes() {
    let source = PostgresReceiver::new(pg_config()).source();
    assert!(matches!(source.next_record(PostgresPoll::Row(Ok(None))), Ok(None)));
    let e = source.next_record(PostgresPoll::Row(Err("io".into()))).err().unwrap();
    assert_eq!(e.message(), "failed while streaming PostgreSQL query rows");
    let e = source.next_record(PostgresPoll::ConnectionEnded(ConnectionEnd::Closed)).err().unwrap();
    assert_eq!(e.message(), "PostgreSQL connection closed before the query stream completed");
    assert_eq!(e.source_detail(), "");
    let e = source
        .next_record(PostgresPoll::ConnectionEnded(ConnectionEnd::Failed("reset".into())))
        .err()
        .unwrap();
    assert_eq!(e.message(), "PostgreSQL connection failed");
    assert_eq!(e.source_detail(), "reset");
    let e = source
        .next_record(PostgresPoll::ConnectionEnded(ConnectionEnd::TaskFailed("panic".into())))
        .err()
        .unwrap();
    assert_eq!(e.message(), "PostgreSQL connection task failed");
    let r = source
        .next_record(PostgresPoll::Row(Ok(Some(RowCells {
            body: Ok("x".into()),
            severity_text: Ok("INFO".into()),
        }))))
        .ok()
        .unwrap()
        .unwrap();
    assert_eq!(r.body(), "x");
}

#[test]
fn postgres_error_messages() {
    let e = PostgresSourceError::ConnectionEnvironment { variable: "PG_URL".into(), detail: "not present".into() };
    assert_eq!(e.message(), "environment variable 'PG_URL' does not contain a PostgreSQL connection string");
    assert_eq!(PostgresSourceError::Connect { detail: "d".into() }.message(), "failed to connect to PostgreSQL");
    assert_eq!(PostgresSourceError::Query { detail: "d".into() }.message(), "failed to start PostgreSQL query");
    match e.failure_event() {
        IngestEvent::SourceFailed { message, source_detail } => {
            assert_eq!(message, "environment variable 'PG_URL' does not contain a PostgreSQL connection string");
            assert_eq!(source_detail, "not present");
        }
        _ => panic!("expected a failure event"),
    }
}

#[test]
fn text_file_config_and_receiver() {
    let c = TextFileReceiverConfig::from_fields("/var/log/app.log".into(), None).expect("config");
    assert_eq!(c.path(), "/var/log/app.log");
    assert_eq!(c.batch_size(), 1000);
    assert_eq!(contrib_receivers::text_file::default_batch_size(), 1000);
    let receiver = TextFileReceiver::new(c);
    let state = receiver.ingest_state("t".into());
    assert_eq!(state.batch_size(), 1000);
    assert_eq!(receiver.source().path(), "/var/log/app.log");
}

#[test]
fn text_line_becomes_record() {
    let source = TextFileSource::new("/f".into());
    let r = source.next_record(Ok(Some("a line".into()))).ok().unwrap().unwrap();
    assert_eq!(r.event_name(), "text.file.line");
    assert_eq!(r.body(), "a line");
    assert_eq!(r.severity_number(), Some(9));
    assert_eq!(r.severity_text(), "INFO");
    assert!(matches!(source.next_record(Ok(None)), Ok(None)));
}

#[test]
fn text_file_errors() {
    let source = TextFileSource::new("/f".into());
    let e = source.next_record(Err("denied".into())).err().unwrap();
    assert_eq!(e.message(), "failed to read text file '/f'");
    assert_eq!(e.source_detail(), "denied");
    let e = source.open_error("missing".into());
    assert_eq!(e.message(), "failed to open text file '/f'");
    let TextFileSourceError::Io { operation, .. } = e;
    assert_eq!(operation, FileOperation::Open);
}

use vstd::prelude::*;

use crate::config::{chosen_batch_size, chosen_text, resolve_batch_size, ConfigError};
use crate::ingest::{IngestEvent, IngestState, IngestStateView};
use crate::log_record::SourceLogRecord;

verus! {

/// URN of the PostgreSQL receiver.
pub const POSTGRES_RECEIVER_URN: &'static str = "urn:otel:receiver:postgres";

/// The batch size used when the configuration gives none.
pub const DEFAULT_BATCH_SIZE: usize = 1000;

/// Default name of the text column used as the log body.
pub fn default_body_column() -> (s: String)
    ensures
        s@ == "message"@,
{
    String::from_str("message")
}

/// Default name of the text column used as the log severity text.
pub fn default_severity_text_column() -> (s: String)
    ensures
        s@ == "severity_text"@,
{
    String::from_str("severity_text")
}

/// Default event name assigned to every row.
pub fn default_event_name() -> (s: String)
    ensures
        s@ == "postgres.row"@,
{
    String::from_str("postgres.row")
}

/// Default maximum number of records per batch.
pub fn default_batch_size() -> (n: usize)
    ensures
        n == DEFAULT_BATCH_SIZE,
        n > 0,
{
    DEFAULT_BATCH_SIZE
}

/// Mathematical model of a PostgreSQL receiver configuration.
pub struct PostgresReceiverConfigView {
    pub connection_string_env: Seq<char>,
    pub query: Seq<char>,
    pub body_column: Seq<char>,
    pub severity_text_column: Seq<char>,
    pub event_name: Seq<char>,
    pub batch_size: nat,
}

/// Configuration for the PostgreSQL receiver.
pub struct PostgresReceiverConfig {
    /// Name of the environment variable containing the PostgreSQL connection string.
    connection_string_env: String,
    /// SQL query to execute once and stream as log records.
    query: String,
    /// Name of the non-NULL text column used as the log body.
    body_column: String,
    /// Name of the non-NULL text column used as the log severity text.
    severity_text_column: String,
    /// Static event name assigned to every returned row.
    event_name: String,
    /// Maximum number of log records to include in each batch; positive.
    batch_size: usize,
}

impl View for PostgresReceiverConfig {
    type V = PostgresReceiverConfigView;

    closed spec fn view(&self) -> PostgresReceiverConfigView {
        PostgresReceiverConfigView {
            connection_string_env: self.connection_string_env@,
            query: self.query@,
            body_column: self.body_column@,
            severity_text_column: self.severity_text_column@,
            event_name: self.event_name@,
            batch_size: self.batch_size as nat,
        }
    }
}

impl PostgresReceiverConfig {
    /// Builds a configuration from its fields, applying the defaults to the
    /// ones not given (`message`, `severity_text`, `postgres.row`, 1000).
    /// A zero batch size is refused.
    pub fn from_fields(
        connection_string_env: String,
        query: String,
        body_column: Option<String>,
        severity_text_column: Option<String>,
        event_name: Option<String>,
        batch_size: Option<usize>,
    ) -> (config: Result<Self, ConfigError>)
        ensures
            chosen_batch_size(batch_size, DEFAULT_BATCH_SIZE) == 0 <==> config is Err,
            config matches Err(e) ==> e == ConfigError::ZeroBatchSize,
            batch_size matches Some(n) && n > 0 ==> (config matches Ok(c) && c@.batch_size == batch_size->Some_0),
            batch_size is None ==> (config matches Ok(c) && c@.batch_size == 1000),
            batch_size == Some(0usize) ==> config is Err,
            config matches Ok(c) ==> c@ == (PostgresReceiverConfigView {
                connection_string_env: connection_string_env@,
                query: query@,
                body_column: chosen_text(body_column, "message"@),
                severity_text_column: chosen_text(severity_text_column, "severity_text"@),
                event_name: chosen_text(event_name, "postgres.row"@),
                batch_size: chosen_batch_size(batch_size, DEFAULT_BATCH_SIZE) as nat,
            }),
    {
        let batch_size = match resolve_batch_size(batch_size, default_batch_size()) {
            Ok(n) => n,
            Err(e) => return Err(e),
        };
        let body_column = match body_column {
            Some(s) => s,
            None => default_body_column(),
        };
        let severity_text_column = match severity_text_column {
            Some(s) => s,
            None => default_severity_text_column(),
        };
        let event_name = match event_name {
            Some(s) => s,
            None => default_event_name(),
        };
        Ok(PostgresReceiverConfig {
            connection_string_env,
            query,
            body_column,
            severity_text_column,
            event_name,
            batch_size,
        })
    }

    #[verifier::type_invariant]
    spec fn batch_size_positive(self) -> bool {
        self.batch_size > 0
    }

    /// Name of the environment variable holding the connection string.
    pub fn connection_string_env(&self) -> (s: &String)
        ensures
            s@ == self@.connection_string_env,
    {
        &self.connection_string_env
    }

    /// The query to run.
    pub fn query(&self) -> (s: &String)
        ensures
            s@ == self@.query,
    {
        &self.query
    }

    /// Name of the body column.
    pub fn body_column(&self) -> (s: &String)
        ensures
            s@ == self@.body_column,
    {
        &self.body_column
    }

    /// Name of the severity text column.
    pub fn severity_text_column(&self) -> (s: &String)
        ensures
            s@ == self@.severity_text_column,
    {
        &self.severity_text_column
    }

    /// The event name of every row.
    pub fn event_name(&self) -> (s: &String)
        ensures
            s@ == self@.event_name,
    {
        &self.event_name
    }

    /// Maximum number of records per batch; always positive.
    pub fn batch_size(&self) -> (n: usize)
        ensures
            n == self@.batch_size,
            n > 0,
    {
        proof {
            use_type_invariant(self);
        }
        self.batch_size
    }
}

/// Receiver that emits one log record per PostgreSQL query row.
pub struct PostgresReceiver {
    config: PostgresReceiverConfig,
}

impl View for PostgresReceiver {
    type V = PostgresReceiverConfigView;

    closed spec fn view(&self) -> PostgresReceiverConfigView {
        self.config@
    }
}

impl PostgresReceiver {
    /// A receiver with the given configuration.
    pub fn new(config: PostgresReceiverConfig) -> (receiver: Self)
        ensures
            receiver@ == config@,
    {
        PostgresReceiver { config }
    }

    /// The receiver's configuration.
    pub fn config(&self) -> (c: &PostgresReceiverConfig)
        ensures
            c@ == self@,
    {
        &self.config
    }

    /// The state the ingestion loop starts from: the configured batch size,
    /// nothing pending, the query stream not yet exhausted.
    pub fn ingest_state(&self, receiver_id: String) -> (state: IngestState)
        ensures
            state@ == (IngestStateView {
                receiver: receiver_id@,
                batch_size: self@.batch_size,
                pending: Seq::empty(),
                read_complete: false,
            }),
            state@.wf(),
    {
        IngestState::new(receiver_id, self.config.batch_size())
    }

    /// The row-mapping settings the source is opened with.
    pub fn source(&self) -> (source: PostgresSource)
        ensures
            source@ == (PostgresSourceView {
                body_column: self@.body_column,
                severity_text_column: self@.severity_text_column,
                event_name: self@.event_name,
            }),
    {
        PostgresSource::from_config(&self.config)
    }
}

/// Why the PostgreSQL source failed. Each `detail` is the message of the
/// underlying error.
pub enum PostgresSourceError {
    /// The environment variable naming the connection string could not be read.
    ConnectionEnvironment { variable: String, detail: String },
    /// Connecting failed.
    Connect { detail: String },
    /// Starting the query failed.
    Query { detail: String },
    /// Reading the next row failed.
    Read { detail: String },
    /// A row's column is missing, NULL or not text.
    Column { column: String, detail: String },
    /// The connection ended cleanly before the rows did.
    ConnectionClosed,
    /// The connection failed.
    Connection { detail: String },
    /// The task driving the connection failed.
    ConnectionTask { detail: String },
}

impl PostgresSourceError {
    /// The error's message.
    pub open spec fn message_spec(&self) -> Seq<char> {
        match self {
            PostgresSourceError::ConnectionEnvironment { variable, .. } =>
                "environment variable '"@ + variable@ + "' does not contain a PostgreSQL connection string"@,
            PostgresSourceError::Connect { .. } => "failed to connect to PostgreSQL"@,
            PostgresSourceError::Query { .. } => "failed to start PostgreSQL query"@,
            PostgresSourceError::Read { .. } => "failed while streaming PostgreSQL query rows"@,
            PostgresSourceError::Column { column, .. } =>
                "PostgreSQL row column '"@ + column@ + "' must contain a non-NULL text value"@,
            PostgresSourceError::ConnectionClosed =>
                "PostgreSQL connection closed before the query stream completed"@,
            PostgresSourceError::Connection { .. } => "PostgreSQL connection failed"@,
            PostgresSourceError::ConnectionTask { .. } => "PostgreSQL connection task failed"@,
        }
    }

    /// The message of the underlying error, empty when there is none.
    pub open spec fn source_detail_spec(&self) -> Seq<char> {
        match self {
            PostgresSourceError::ConnectionEnvironment { detail, .. } => detail@,
            PostgresSourceError::Connect { detail } => detail@,
            PostgresSourceError::Query { detail } => detail@,
            PostgresSourceError::Read { detail } => detail@,
            PostgresSourceError::Column { detail, .. } => detail@,
            PostgresSourceError::ConnectionClosed => Seq::empty(),
            PostgresSourceError::Connection { detail } => detail@,
            PostgresSourceError::ConnectionTask { detail } => detail@,
        }
    }

    /// The error's message.
    pub fn message(&self) -> (m: String)
        ensures
            m@ == self.message_spec(),
    {
        match self {
            PostgresSourceError::ConnectionEnvironment { variable, .. } => {
                let mut m = String::from_str("environment variable '");
                m.append(variable.as_str());
                m.append("' does not contain a PostgreSQL connection string");
                m
            },
            PostgresSourceError::Connect { .. } => String::from_str("failed to connect to PostgreSQL"),
            PostgresSourceError::Query { .. } => String::from_str("failed to start PostgreSQL query"),
            PostgresSourceError::Read { .. } => String::from_str("failed while streaming PostgreSQL query rows"),
            PostgresSourceError::Column { column, .. } => {
                let mut m = String::from_str("PostgreSQL row column '");
                m.append(column.as_str());
                m.append("' must contain a non-NULL text value");
                m
            },
            PostgresSourceError::ConnectionClosed => String::from_str(
                "PostgreSQL connection closed before the query stream completed",
            ),
            PostgresSourceError::Connection { .. } => String::from_str("PostgreSQL connection failed"),
            PostgresSourceError::ConnectionTask { .. } => String::from_str("PostgreSQL connection task failed"),
        }
    }

    /// The loop event for this failure: its message and source detail.
    pub fn failure_event(&self) -> (event: IngestEvent)
        ensures
            event matches IngestEvent::SourceFailed { message, source_detail }
                && message@ == self.message_spec() && source_detail@ == self.source_detail_spec(),
    {
        IngestEvent::SourceFailed { message: self.message(), source_detail: self.source_detail() }
    }

    /// The message of the underlying error, empty when there is none.
    pub fn source_detail(&self) -> (d: String)
        ensures
            d@ == self.source_detail_spec(),
    {
        match self {
            PostgresSourceError::ConnectionEnvironment { detail, .. } => detail.clone(),
            PostgresSourceError::Connect { detail } => detail.clone(),
            PostgresSourceError::Query { detail } => detail.clone(),
            PostgresSourceError::Read { detail } => detail.clone(),
            PostgresSourceError::Column { detail, .. } => detail.clone(),
            PostgresSourceError::ConnectionClosed => String::new(),
            PostgresSourceError::Connection { detail } => detail.clone(),
            PostgresSourceError::ConnectionTask { detail } => detail.clone(),
        }
    }
}

/// The two text cells a row is read for: the body column and the severity
/// text column, each either its non-NULL text or the message of the error
/// that reading it as text gave.
pub struct RowCells {
    pub body: Result<String, String>,
    pub severity_text: Result<String, String>,
}

/// How a connection ended.
pub enum ConnectionEnd {
    /// The connection closed without error.
    Closed,
    /// The connection failed with this message.
    Failed(String),
    /// The task driving the connection failed with this message.
    TaskFailed(String),
}

/// What waiting on the source yields first: the row stream's next item (a
/// row, its end, or a read error's message), or the end of the connection.
pub enum PostgresPoll {
    Row(Result<Option<RowCells>, String>),
    ConnectionEnded(ConnectionEnd),
}

/// Mathematical model of the source's row-mapping settings.
pub struct PostgresSourceView {
    pub body_column: Seq<char>,
    pub severity_text_column: Seq<char>,
    pub event_name: Seq<char>,
}

/// The row-mapping side of the PostgreSQL source: which columns become the
/// body and severity text, and the event name of every record.
pub struct PostgresSource {
    body_column: String,
    severity_text_column: String,
    event_name: String,
}

impl View for PostgresSource {
    type V = PostgresSourceView;

    closed spec fn view(&self) -> PostgresSourceView {
        PostgresSourceView {
            body_column: self.body_column@,
            severity_text_column: self.severity_text_column@,
            event_name: self.event_name@,
        }
    }
}

impl PostgresSource {
    /// The settings of a configuration.
    pub fn from_config(config: &PostgresReceiverConfig) -> (source: Self)
        ensures
            source@ == (PostgresSourceView {
                body_column: config@.body_column,
                severity_text_column: config@.severity_text_column,
                event_name: config@.event_name,
            }),
    {
        PostgresSource {
            body_column: config.body_column().clone(),
            severity_text_column: config.severity_text_column().clone(),
            event_name: config.event_name().clone(),
        }
    }

    /// Name of the body column.
    pub fn body_column(&self) -> (s: &String)
        ensures
            s@ == self@.body_column,
    {
        &self.body_column
    }

    /// Name of the severity text column.
    pub fn severity_text_column(&self) -> (s: &String)
        ensures
            s@ == self@.severity_text_column,
    {
        &self.severity_text_column
    }

    /// Maps a row to a record with the configured event name, the body cell
    /// as body and the severity cell as severity text (no severity number).
    /// A body cell that could not be read gives a column error for the body
    /// column; else a severity cell that could not be read gives one for the
    /// severity column.
    pub fn map_row(&self, row: RowCells) -> (record: Result<SourceLogRecord, PostgresSourceError>)
        ensures
            match (row.body, row.severity_text) {
                (Err(d), _) => record matches Err(PostgresSourceError::Column { column, detail })
                    && column@ == self@.body_column && detail@ == d@,
                (Ok(_), Err(d)) => record matches Err(PostgresSourceError::Column { column, detail })
                    && column@ == self@.severity_text_column && detail@ == d@,
                (Ok(b), Ok(t)) => record matches Ok(r) && r@.event_name == self@.event_name
                    && r@.body == b@ && r@.severity_number.is_none() && r@.severity_text == t@,
            },
    {
        let body = match row.body {
            Ok(body) => body,
            Err(detail) => return Err(PostgresSourceError::Column { column: self.body_column.clone(), detail }),
        };
        let severity_text = match row.severity_text {
            Ok(text) => text,
            Err(detail) => return Err(
                PostgresSourceError::Column { column: self.severity_text_column.clone(), detail },
            ),
        };
        Ok(SourceLogRecord::new_with_severity_text(self.event_name.clone(), body, severity_text))
    }

    /// The source's answer to what it waited on: the mapped row, `None` at
    /// the end of the rows, a read error, or the error for the end of the
    /// connection (closed, failed, or its task failed).
    pub fn next_record(&self, poll: PostgresPoll) -> (next: Result<Option<SourceLogRecord>, PostgresSourceError>)
        ensures
            match poll {
                PostgresPoll::Row(Err(d)) => next matches Err(PostgresSourceError::Read { detail }) && detail@ == d@,
                PostgresPoll::Row(Ok(None)) => next matches Ok(None),
                PostgresPoll::Row(Ok(Some(row))) => match (row.body, row.severity_text) {
                    (Err(d), _) => next matches Err(PostgresSourceError::Column { column, detail })
                        && column@ == self@.body_column && detail@ == d@,
                    (Ok(_), Err(d)) => next matches Err(PostgresSourceError::Column { column, detail })
                        && column@ == self@.severity_text_column && detail@ == d@,
                    (Ok(b), Ok(t)) => next matches Ok(Some(r)) && r@.event_name == self@.event_name
                        && r@.body == b@ && r@.severity_number.is_none() && r@.severity_text == t@,
                },
                PostgresPoll::ConnectionEnded(ConnectionEnd::Closed) => next matches Err(PostgresSourceError::ConnectionClosed),
                PostgresPoll::ConnectionEnded(ConnectionEnd::Failed(d)) =>
                    next matches Err(PostgresSourceError::Connection { detail }) && detail@ == d@,
                PostgresPoll::ConnectionEnded(ConnectionEnd::TaskFailed(d)) =>
                    next matches Err(PostgresSourceError::ConnectionTask { detail }) && detail@ == d@,
            },
    {
        match poll {
            PostgresPoll::Row(Err(detail)) => Err(PostgresSourceError::Read { detail }),
            PostgresPoll::Row(Ok(None)) => Ok(None),
            PostgresPoll::Row(Ok(Some(row))) => match self.map_row(row) {
                Ok(record) => Ok(Some(record)),
                Err(e) => Err(e),
            },
            PostgresPoll::ConnectionEnded(ConnectionEnd::Closed) => Err(PostgresSourceError::ConnectionClosed),
            PostgresPoll::ConnectionEnded(ConnectionEnd::Failed(detail)) => Err(PostgresSourceError::Connection { detail }),
            PostgresPoll::ConnectionEnded(ConnectionEnd::TaskFailed(detail)) => Err(
                PostgresSourceError::ConnectionTask { detail },
            ),
        }
    }
}

} // verus!

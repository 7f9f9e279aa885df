use vstd::prelude::*;

use crate::config::{chosen_batch_size, resolve_batch_size, ConfigError};
use crate::ingest::{IngestEvent, IngestState, IngestStateView};
use crate::log_record::{SourceLogRecord, INFO_SEVERITY_NUMBER};

verus! {

/// URN of the text file receiver.
pub const TEXT_FILE_RECEIVER_URN: &'static str = "urn:otel:receiver:text_file";

/// The batch size used when the configuration gives none.
pub const DEFAULT_BATCH_SIZE: usize = 1000;

/// Default maximum number of records per batch.
pub fn default_batch_size() -> (n: usize)
    ensures
        n == DEFAULT_BATCH_SIZE,
        n > 0,
{
    DEFAULT_BATCH_SIZE
}

/// The event name of every record read from a text file.
pub open spec fn line_event_name() -> Seq<char> {
    "text.file.line"@
}

/// Mathematical model of a text file receiver configuration.
pub struct TextFileReceiverConfigView {
    pub path: Seq<char>,
    pub batch_size: nat,
}

/// Configuration for the text file receiver.
pub struct TextFileReceiverConfig {
    /// Path of the text file to read.
    path: String,
    /// Maximum number of log records to include in each batch; positive.
    batch_size: usize,
}

impl View for TextFileReceiverConfig {
    type V = TextFileReceiverConfigView;

    closed spec fn view(&self) -> TextFileReceiverConfigView {
        TextFileReceiverConfigView { path: self.path@, batch_size: self.batch_size as nat }
    }
}

impl TextFileReceiverConfig {
    #[verifier::type_invariant]
    spec fn batch_size_positive(self) -> bool {
        self.batch_size > 0
    }

    /// Builds a configuration from its fields; the batch size defaults to
    /// 1000, and a zero batch size is refused.
    pub fn from_fields(path: String, batch_size: Option<usize>) -> (config: Result<Self, ConfigError>)
        ensures
            chosen_batch_size(batch_size, DEFAULT_BATCH_SIZE) == 0 <==> config is Err,
            config matches Err(e) ==> e == ConfigError::ZeroBatchSize,
            batch_size matches Some(n) && n > 0 ==> (config matches Ok(c) && c@.batch_size == batch_size->Some_0),
            batch_size is None ==> (config matches Ok(c) && c@.batch_size == 1000),
            batch_size == Some(0usize) ==> config is Err,
            config matches Ok(c) ==> c@ == (TextFileReceiverConfigView {
                path: path@,
                batch_size: chosen_batch_size(batch_size, DEFAULT_BATCH_SIZE) as nat,
            }),
    {
        match resolve_batch_size(batch_size, default_batch_size()) {
            Ok(batch_size) => Ok(TextFileReceiverConfig { path, batch_size }),
            Err(e) => Err(e),
        }
    }

    /// Path of the text file.
    pub fn path(&self) -> (p: &String)
        ensures
            p@ == self@.path,
    {
        &self.path
    }

    /// Maximum number of records per batch; always positive.
    pub fn batch_size(&self) -> (n: usize)
        ensures
            n == self@.batch_size,
            n > 0,
    {
        proof {
            use_type_invariant(self);
        }
        self.batch_size
    }
}

/// Receiver that emits one log record per line of a text file.
pub struct TextFileReceiver {
    config: TextFileReceiverConfig,
}

impl View for TextFileReceiver {
    type V = TextFileReceiverConfigView;

    closed spec fn view(&self) -> TextFileReceiverConfigView {
        self.config@
    }
}

impl TextFileReceiver {
    /// A receiver with the given configuration.
    pub fn new(config: TextFileReceiverConfig) -> (receiver: Self)
        ensures
            receiver@ == config@,
    {
        TextFileReceiver { config }
    }

    /// The receiver's configuration.
    pub fn config(&self) -> (c: &TextFileReceiverConfig)
        ensures
            c@ == self@,
    {
        &self.config
    }

    /// The state the ingestion loop starts from: the configured batch size,
    /// nothing pending, the file not yet read to its end.
    pub fn ingest_state(&self, receiver_id: String) -> (state: IngestState)
        ensures
            state@ == (IngestStateView {
                receiver: receiver_id@,
                batch_size: self@.batch_size,
                pending: Seq::empty(),
                read_complete: false,
            }),
            state@.wf(),
    {
        IngestState::new(receiver_id, self.config.batch_size())
    }

    /// The source for the configured file.
    pub fn source(&self) -> (source: TextFileSource)
        ensures
            source@ == self@.path,
    {
        TextFileSource::new(self.config.path().clone())
    }
}

/// The file operation that failed.
#[derive(Clone, Copy, Debug, PartialEq, Eq, Structural)]
pub enum FileOperation {
    Open,
    Read,
}

impl FileOperation {
    /// The operation's name in messages.
    pub open spec fn name_spec(self) -> Seq<char> {
        match self {
            FileOperation::Open => "open"@,
            FileOperation::Read => "read"@,
        }
    }
}

/// Why the text file source failed; `detail` is the message of the
/// underlying I/O error.
pub enum TextFileSourceError {
    Io { operation: FileOperation, path: String, detail: String },
}

impl TextFileSourceError {
    /// The error's message.
    pub open spec fn message_spec(&self) -> Seq<char> {
        match self {
            TextFileSourceError::Io { operation, path, .. } =>
                "failed to "@ + operation.name_spec() + " text file '"@ + path@ + "'"@,
        }
    }

    /// The message of the underlying I/O error.
    pub open spec fn source_detail_spec(&self) -> Seq<char> {
        match self {
            TextFileSourceError::Io { detail, .. } => detail@,
        }
    }

    /// The error's message.
    pub fn message(&self) -> (m: String)
        ensures
            m@ == self.message_spec(),
    {
        match self {
            TextFileSourceError::Io { operation, path, .. } => {
                let mut m = String::from_str("failed to ");
                match operation {
                    FileOperation::Open => m.append("open"),
                    FileOperation::Read => m.append("read"),
                }
                m.append(" text file '");
                m.append(path.as_str());
                m.append("'");
                m
            },
        }
    }

    /// The loop event for this failure: its message and source detail.
    pub fn failure_event(&self) -> (event: IngestEvent)
        ensures
            event matches IngestEvent::SourceFailed { message, source_detail }
                && message@ == self.message_spec() && source_detail@ == self.source_detail_spec(),
    {
        IngestEvent::SourceFailed { message: self.message(), source_detail: self.source_detail() }
    }

    /// The message of the underlying I/O error.
    pub fn source_detail(&self) -> (d: String)
        ensures
            d@ == self.source_detail_spec(),
    {
        match self {
            TextFileSourceError::Io { detail, .. } => detail.clone(),
        }
    }
}

/// The line-mapping side of the text file source: the path it reads.
pub struct TextFileSource {
    path: String,
}

impl View for TextFileSource {
    type V = Seq<char>;

    closed spec fn view(&self) -> Seq<char> {
        self.path@
    }
}

impl TextFileSource {
    /// The source of the file at `path`.
    pub fn new(path: String) -> (source: Self)
        ensures
            source@ == path@,
    {
        TextFileSource { path }
    }

    /// The path read.
    pub fn path(&self) -> (p: &String)
        ensures
            p@ == self@,
    {
        &self.path
    }

    /// The error for a file that could not be opened.
    pub fn open_error(&self, detail: String) -> (error: TextFileSourceError)
        ensures
            error matches TextFileSourceError::Io { operation, path, detail: d }
                && operation == FileOperation::Open && path@ == self@ && d@ == detail@,
    {
        TextFileSourceError::Io { operation: FileOperation::Open, path: self.path.clone(), detail }
    }

    /// The source's answer to reading the next line: an informational record
    /// with event name `text.file.line` and the line as body, `None` at the
    /// end of the file, or a read error for the path.
    pub fn next_record(&self, line: Result<Option<String>, String>) -> (next: Result<Option<SourceLogRecord>, TextFileSourceError>)
        ensures
            match line {
                Ok(Some(body)) => next matches Ok(Some(r)) && r@.event_name == line_event_name()
                    && r@.body == body@ && r@.severity_number == Some(INFO_SEVERITY_NUMBER)
                    && r@.severity_text == "INFO"@,
                Ok(None) => next matches Ok(None),
                Err(d) => next matches Err(TextFileSourceError::Io { operation, path, detail })
                    && operation == FileOperation::Read && path@ == self@ && detail@ == d@,
            },
    {
        match line {
            Ok(Some(body)) => Ok(Some(SourceLogRecord::new(String::from_str("text.file.line"), body))),
            Ok(None) => Ok(None),
            Err(detail) => Err(
                TextFileSourceError::Io { operation: FileOperation::Read, path: self.path.clone(), detail },
            ),
        }
    }
}

} // verus!

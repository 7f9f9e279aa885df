use vstd::prelude::*;

verus! {

/// Mathematical model of one source log record.
pub struct LogRecordView {
    pub event_name: Seq<char>,
    pub body: Seq<char>,
    pub severity_number: Option<i32>,
    pub severity_text: Seq<char>,
}

/// The severity number of an informational record (OpenTelemetry `INFO`).
pub const INFO_SEVERITY_NUMBER: i32 = 9;

/// Source-neutral data needed to construct one log record.
pub struct SourceLogRecord {
    event_name: String,
    body: String,
    severity_number: Option<i32>,
    severity_text: String,
}

impl View for SourceLogRecord {
    type V = LogRecordView;

    closed spec fn view(&self) -> LogRecordView {
        LogRecordView {
            event_name: self.event_name@,
            body: self.body@,
            severity_number: self.severity_number,
            severity_text: self.severity_text@,
        }
    }
}

impl SourceLogRecord {
    /// Creates an informational source log record: severity number 9 and
    /// severity text `INFO`.
    pub fn new(event_name: String, body: String) -> (record: Self)
        ensures
            record@.event_name == event_name@,
            record@.body == body@,
            record@.severity_number == Some(INFO_SEVERITY_NUMBER),
            record@.severity_text == "INFO"@,
    {
        SourceLogRecord {
            event_name,
            body,
            severity_number: Some(INFO_SEVERITY_NUMBER),
            severity_text: String::from_str("INFO"),
        }
    }

    /// Creates a source log record with source-provided severity text and no
    /// severity number.
    pub fn new_with_severity_text(event_name: String, body: String, severity_text: String) -> (record: Self)
        ensures
            record@.event_name == event_name@,
            record@.body == body@,
            record@.severity_number.is_none(),
            record@.severity_text == severity_text@,
    {
        SourceLogRecord { event_name, body, severity_number: None, severity_text }
    }

    /// The record's event name.
    pub fn event_name(&self) -> (s: &String)
        ensures
            s@ == self@.event_name,
    {
        &self.event_name
    }

    /// The record's body.
    pub fn body(&self) -> (s: &String)
        ensures
            s@ == self@.body,
    {
        &self.body
    }

    /// The record's severity number, if any.
    pub fn severity_number(&self) -> (n: Option<i32>)
        ensures
            n == self@.severity_number,
    {
        self.severity_number
    }

    /// The record's severity text.
    pub fn severity_text(&self) -> (s: &String)
        ensures
            s@ == self@.severity_text,
    {
        &self.severity_text
    }
}

} // verus!

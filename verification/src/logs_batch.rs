use vstd::prelude::*;

use crate::clock::unix_time_nanos;
use crate::log_record::{LogRecordView, SourceLogRecord};

verus! {

/// The largest number of records one logs batch can hold: row ids are `u16`.
pub const MAX_BATCH_RECORDS: usize = 65536;

/// Mathematical model of one row of the logs table of a batch.
pub struct LogRowView {
    pub id: u16,
    pub time_unix_nano: i64,
    pub observed_time_unix_nano: i64,
    pub severity_number: Option<i32>,
    pub severity_text: Seq<char>,
    pub body: Seq<char>,
    pub event_name: Seq<char>,
    pub dropped_attributes_count: u32,
    pub resource_id: u16,
    pub scope_id: u16,
}

/// One row of the logs table of an OTAP logs batch. The columns that the
/// receivers always leave null (schema URL, flags, trace id, span id, the
/// resource schema URL and the scope name and version) are not held; the
/// resource and scope dropped-attribute counts are always 0.
pub struct LogRow {
    pub id: u16,
    pub time_unix_nano: i64,
    pub observed_time_unix_nano: i64,
    pub severity_number: Option<i32>,
    pub severity_text: String,
    pub body: String,
    pub event_name: String,
    pub dropped_attributes_count: u32,
    pub resource_id: u16,
    pub scope_id: u16,
}

impl View for LogRow {
    type V = LogRowView;

    open spec fn view(&self) -> LogRowView {
        LogRowView {
            id: self.id,
            time_unix_nano: self.time_unix_nano,
            observed_time_unix_nano: self.observed_time_unix_nano,
            severity_number: self.severity_number,
            severity_text: self.severity_text@,
            body: self.body@,
            event_name: self.event_name@,
            dropped_attributes_count: self.dropped_attributes_count,
            resource_id: self.resource_id,
            scope_id: self.scope_id,
        }
    }
}

/// A logs batch: one row per source record, in the order of the records.
pub struct LogsBatch {
    rows: Vec<LogRow>,
}

impl View for LogsBatch {
    type V = Seq<LogRowView>;

    closed spec fn view(&self) -> Seq<LogRowView> {
        self.rows@.map_values(|row: LogRow| row@)
    }
}

/// The timestamp written into every row: the clock's nanoseconds, saturated
/// at `i64::MAX`.
pub open spec fn clamp_timestamp(nanos: u128) -> i64 {
    if nanos <= i64::MAX as u128 {
        nanos as i64
    } else {
        i64::MAX
    }
}

/// The row that a record at position `index` becomes, stamped with `timestamp`.
pub open spec fn row_for(record: LogRecordView, index: int, timestamp: i64) -> LogRowView {
    LogRowView {
        id: index as u16,
        time_unix_nano: timestamp,
        observed_time_unix_nano: timestamp,
        severity_number: record.severity_number,
        severity_text: record.severity_text,
        body: record.body,
        event_name: record.event_name,
        dropped_attributes_count: 0,
        resource_id: 0,
        scope_id: 0,
    }
}

/// `rows` holds, in order, exactly the rows of `records` stamped with `timestamp`.
pub open spec fn rows_match(rows: Seq<LogRowView>, records: Seq<SourceLogRecord>, timestamp: i64) -> bool {
    &&& rows.len() == records.len()
    &&& forall|i: int| 0 <= i < rows.len() ==> #[trigger] rows[i] == row_for(records[i]@, i, timestamp)
}

/// The error message for a batch with more records than row ids.
pub open spec fn too_many_records_message() -> Seq<char> {
    "log batch contains more than 65536 records"@
}

/// What building a batch from `records` and a clock reading gives: the
/// clock's error message, the too-many-records message, or the rows.
pub open spec fn batch_result(records: Seq<SourceLogRecord>, clock: Result<u128, String>) -> Result<Seq<LogRowView>, Seq<char>> {
    match clock {
        Err(m) => Err(m@),
        Ok(n) => if records.len() > MAX_BATCH_RECORDS {
            Err(too_many_records_message())
        } else {
            Ok(Seq::new(records.len(), |i: int| row_for(records[i]@, i, clamp_timestamp(n))))
        },
    }
}

/// With a clock reading of `n` nanoseconds and at most 65536 records, the
/// batch has one row per record, in order: row `i` has id `i`, the record's
/// severity number, severity text, body and event name, no dropped
/// attributes, resource and scope 0, and as time and observed time `n`
/// saturated at `i64::MAX`.
pub proof fn lemma_rows_carry_record_fields(records: Seq<SourceLogRecord>, n: u128)
    requires
        records.len() <= MAX_BATCH_RECORDS,
    ensures
        batch_result(records, Ok(n)) is Ok,
        batch_result(records, Ok(n))->Ok_0.len() == records.len(),
        forall|i: int| #![trigger batch_result(records, Ok(n))->Ok_0[i]] 0 <= i < records.len() ==> {
            let row = batch_result(records, Ok(n))->Ok_0[i];
            &&& row.id == i
            &&& row.severity_number == records[i]@.severity_number
            &&& row.severity_text == records[i]@.severity_text
            &&& row.body == records[i]@.body
            &&& row.event_name == records[i]@.event_name
            &&& row.dropped_attributes_count == 0
            &&& row.resource_id == 0
            &&& row.scope_id == 0
            &&& (n <= i64::MAX as u128 ==> row.time_unix_nano == n as i64)
            &&& (n > i64::MAX as u128 ==> row.time_unix_nano == i64::MAX)
            &&& row.observed_time_unix_nano == row.time_unix_nano
        },
{
    assert forall|i: int| 0 <= i < records.len() implies (batch_result(records, Ok(n))->Ok_0[i]).id == i by {
        assert(0 <= i < 65536);
        assert((i as u16) == i);
    }
}

/// More than 65536 records are always refused with the same message,
/// whatever the clock reads.
pub proof fn lemma_too_many_records_refused(records: Seq<SourceLogRecord>, n: u128)
    requires
        records.len() > MAX_BATCH_RECORDS,
    ensures
        batch_result(records, Ok(n)) == Err::<Seq<LogRowView>, Seq<char>>("log batch contains more than 65536 records"@),
{
}

impl LogsBatch {
    /// Number of rows in the batch.
    pub fn num_rows(&self) -> (n: usize)
        ensures
            n == self@.len(),
    {
        self.rows.len()
    }

    /// The rows of the batch.
    pub fn rows(&self) -> (rows: &Vec<LogRow>)
        ensures
            rows@.map_values(|row: LogRow| row@) == self@,
    {
        &self.rows
    }
}

/// Saturates clock nanoseconds to the `i64` timestamp column.
pub fn timestamp_from_nanos(nanos: u128) -> (timestamp: i64)
    ensures
        timestamp == clamp_timestamp(nanos),
{
    if nanos <= i64::MAX as u128 {
        nanos as i64
    } else {
        i64::MAX
    }
}

/// Builds the logs batch of `records` from a clock reading: the clock's error
/// message when the clock failed, the too-many-records error when there are
/// more than 65536 records, else one row per record, all stamped with the
/// saturated clock value.
pub fn build_logs_batch(records: &Vec<SourceLogRecord>, clock: Result<u128, String>) -> (batch: Result<LogsBatch, String>)
    ensures
        match batch_result(records@, clock) {
            Ok(rows) => batch matches Ok(b) && b@ == rows,
            Err(m) => batch matches Err(e) && e@ == m,
        },
        clock is Ok && records.len() <= MAX_BATCH_RECORDS ==> batch is Ok,
        batch matches Ok(b) ==> {
            &&& clock is Ok
            &&& records.len() <= MAX_BATCH_RECORDS
            &&& b@.len() == records.len()
            &&& forall|i: int| #![trigger b@[i]] 0 <= i < records.len() ==> {
                &&& b@[i].id == i
                &&& b@[i].severity_text == records@[i]@.severity_text
                &&& b@[i].severity_number == records@[i]@.severity_number
                &&& b@[i].body == records@[i]@.body
                &&& b@[i].event_name == records@[i]@.event_name
                &&& b@[i].time_unix_nano == b@[i].observed_time_unix_nano
                &&& (clock->Ok_0 <= i64::MAX as u128 ==> b@[i].time_unix_nano == clock->Ok_0 as i64)
                &&& (clock->Ok_0 > i64::MAX as u128 ==> b@[i].time_unix_nano == i64::MAX)
            }
        },
{
    let nanos = match clock {
        Ok(nanos) => nanos,
        Err(message) => return Err(message),
    };
    let timestamp = timestamp_from_nanos(nanos);
    let mut rows: Vec<LogRow> = Vec::new();
    let count = records.len();
    for index in 0..count
        invariant
            count == records.len(),
            rows.len() == index,
            index <= MAX_BATCH_RECORDS,
            timestamp == clamp_timestamp(nanos),
            clock == Ok::<u128, String>(nanos),
            forall|i: int| 0 <= i < index ==> #[trigger] rows@[i]@ == row_for(records@[i]@, i, timestamp),
    {
        if index >= MAX_BATCH_RECORDS {
            return Err(String::from_str("log batch contains more than 65536 records"));
        }
        let record = &records[index];
        let row = LogRow {
            id: index as u16,
            time_unix_nano: timestamp,
            observed_time_unix_nano: timestamp,
            severity_number: record.severity_number(),
            severity_text: record.severity_text().clone(),
            body: record.body().clone(),
            event_name: record.event_name().clone(),
            dropped_attributes_count: 0,
            resource_id: 0,
            scope_id: 0,
        };
        rows.push(row);
    }
    let batch = LogsBatch { rows };
    assert(batch@ =~= Seq::new(count as nat, |i: int| row_for(records@[i]@, i, timestamp)));
    Ok(batch)
}

/// Builds the logs batch of `records`, stamped with the current system time.
/// Whatever the clock reads: more than 65536 records always give an error,
/// and a batch that comes back holds one row per record, in order, all with
/// one non-negative timestamp.
pub fn build_otap_logs(records: &Vec<SourceLogRecord>) -> (batch: Result<LogsBatch, String>)
    ensures
        records.len() > MAX_BATCH_RECORDS ==> batch is Err,
        batch matches Ok(b) ==> exists|t: i64| t >= 0 && rows_match(b@, records@, t),
{
    let clock = unix_time_nanos();
    let ghost reading = clock;
    let batch = build_logs_batch(records, clock);
    proof {
        if let Ok(n) = reading {
            if records.len() <= MAX_BATCH_RECORDS {
                let rows = Seq::new(records@.len(), |i: int| row_for(records@[i]@, i, clamp_timestamp(n)));
                assert(rows_match(rows, records@, clamp_timestamp(n)));
            }
        }
    }
    batch
}

} // verus!

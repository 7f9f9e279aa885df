use vstd::prelude::*;

use crate::log_record::SourceLogRecord;
use crate::logs_batch::{batch_result, clamp_timestamp, row_for, build_logs_batch, rows_match, LogsBatch, MAX_BATCH_RECORDS};
use crate::clock::unix_time_nanos;

verus! {

/// The engine control messages the ingestion loop tells apart.
#[derive(Clone, Copy, Debug, PartialEq, Eq, Structural)]
pub enum ControlMsg {
    /// Stop reading: flush what is pending, report drained, then finish.
    DrainIngress,
    /// Finish at once, dropping what is pending.
    Shutdown,
    /// Any other control message; the loop goes on.
    Other,
}

/// The kinds of receiver error the ingestion loop reports.
#[derive(Clone, Copy, Debug, PartialEq, Eq, Structural)]
pub enum ReceiverErrorKind {
    /// The source failed to deliver records.
    Transport,
    /// Encoding a batch failed.
    Other,
}

/// Mathematical model of a receiver error.
pub struct ReceiverErrorView {
    pub receiver: Seq<char>,
    pub kind: ReceiverErrorKind,
    pub error: Seq<char>,
    pub source_detail: Seq<char>,
}

/// The error a receiver stops with.
pub struct ReceiverError {
    pub receiver: String,
    pub kind: ReceiverErrorKind,
    pub error: String,
    pub source_detail: String,
}

impl View for ReceiverError {
    type V = ReceiverErrorView;

    open spec fn view(&self) -> ReceiverErrorView {
        ReceiverErrorView {
            receiver: self.receiver@,
            kind: self.kind,
            error: self.error@,
            source_detail: self.source_detail@,
        }
    }
}

/// Converts a source's error (its message and the detail of its sources) into
/// the receiver's transport error.
pub fn source_error(receiver: &String, error_message: String, source_detail: String) -> (error: ReceiverError)
    ensures
        error@ == (ReceiverErrorView {
            receiver: receiver@,
            kind: ReceiverErrorKind::Transport,
            error: error_message@,
            source_detail: source_detail@,
        }),
{
    ReceiverError {
        receiver: receiver.clone(),
        kind: ReceiverErrorKind::Transport,
        error: error_message,
        source_detail,
    }
}

/// What the ingestion loop learns in one turn: a control message (which the
/// loop always looks at first), or what the source delivered.
pub enum IngestEvent {
    Control(ControlMsg),
    /// The source delivered a record.
    Record(SourceLogRecord),
    /// The source is exhausted.
    SourceEnd,
    /// The source failed, with the error's message and source detail.
    SourceFailed { message: String, source_detail: String },
}

impl IngestEvent {
    /// The event comes from the source rather than the control channel.
    pub open spec fn is_source_event(self) -> bool {
        !(self is Control)
    }

    /// The event ends the loop.
    pub open spec fn is_terminal(self) -> bool {
        ||| self matches IngestEvent::Control(ControlMsg::DrainIngress)
        ||| self matches IngestEvent::Control(ControlMsg::Shutdown)
        ||| self is SourceFailed
    }
}

/// The event for what a source returned when asked for its next record: the
/// record, or the end of the source.
pub fn record_event(next: Option<SourceLogRecord>) -> (event: IngestEvent)
    ensures
        match next {
            Some(r) => event == IngestEvent::Record(r),
            None => event is SourceEnd,
        },
{
    match next {
        Some(record) => IngestEvent::Record(record),
        None => IngestEvent::SourceEnd,
    }
}

/// How the loop goes on after a turn.
pub enum IngestOutcome {
    Continue,
    /// The loop ends with the default terminal state.
    Finished,
    /// The loop ends with this error.
    Failed(ReceiverError),
}

/// Mathematical model of an outcome.
pub enum OutcomeView {
    Continue,
    Finished,
    Failed(ReceiverErrorView),
}

impl View for IngestOutcome {
    type V = OutcomeView;

    open spec fn view(&self) -> OutcomeView {
        match self {
            IngestOutcome::Continue => OutcomeView::Continue,
            IngestOutcome::Finished => OutcomeView::Finished,
            IngestOutcome::Failed(e) => OutcomeView::Failed(e@),
        }
    }
}

/// What the driver does after a turn, in this order: send `flush` as one
/// batch when it is not empty, report the receiver drained when
/// `notify_drained`, then follow `outcome`.
pub struct IngestAction {
    pub flush: Vec<SourceLogRecord>,
    pub notify_drained: bool,
    pub outcome: IngestOutcome,
}

/// Mathematical model of an action.
pub struct ActionView {
    pub flush: Seq<SourceLogRecord>,
    pub notify_drained: bool,
    pub outcome: OutcomeView,
}

impl View for IngestAction {
    type V = ActionView;

    open spec fn view(&self) -> ActionView {
        ActionView { flush: self.flush@, notify_drained: self.notify_drained, outcome: self.outcome@ }
    }
}

/// Mathematical model of the loop's state.
pub struct IngestStateView {
    pub receiver: Seq<char>,
    pub batch_size: nat,
    pub pending: Seq<SourceLogRecord>,
    pub read_complete: bool,
}

/// State of the loop that reads a log-record source and sends its records in
/// batches of at most `batch_size`.
pub struct IngestState {
    receiver: String,
    batch_size: usize,
    pending: Vec<SourceLogRecord>,
    read_complete: bool,
}

impl View for IngestState {
    type V = IngestStateView;

    closed spec fn view(&self) -> IngestStateView {
        IngestStateView {
            receiver: self.receiver@,
            batch_size: self.batch_size as nat,
            pending: self.pending@,
            read_complete: self.read_complete,
        }
    }
}

impl IngestStateView {
    /// The batch size is positive and fewer records than a batch are pending.
    pub open spec fn wf(self) -> bool {
        &&& self.batch_size > 0
        &&& self.pending.len() < self.batch_size
    }
}

/// An action that sends nothing, reports nothing, and has the given outcome.
pub open spec fn quiet(outcome: OutcomeView) -> ActionView {
    ActionView { flush: Seq::empty(), notify_drained: false, outcome }
}

/// One turn of the loop: the new state and the action, for an event.
pub open spec fn step_spec(s: IngestStateView, e: IngestEvent) -> (IngestStateView, ActionView) {
    match e {
        IngestEvent::Control(ControlMsg::DrainIngress) => (
            IngestStateView { pending: Seq::empty(), ..s },
            ActionView { flush: s.pending, notify_drained: true, outcome: OutcomeView::Finished },
        ),
        IngestEvent::Control(ControlMsg::Shutdown) => (s, quiet(OutcomeView::Finished)),
        IngestEvent::Control(ControlMsg::Other) => (s, quiet(OutcomeView::Continue)),
        IngestEvent::Record(r) => {
            let p = s.pending.push(r);
            if p.len() == s.batch_size {
                (
                    IngestStateView { pending: Seq::empty(), ..s },
                    ActionView { flush: p, notify_drained: false, outcome: OutcomeView::Continue },
                )
            } else {
                (IngestStateView { pending: p, ..s }, quiet(OutcomeView::Continue))
            }
        },
        IngestEvent::SourceEnd => (
            IngestStateView { pending: Seq::empty(), read_complete: true, ..s },
            ActionView { flush: s.pending, notify_drained: false, outcome: OutcomeView::Continue },
        ),
        IngestEvent::SourceFailed { message, source_detail } => (
            s,
            quiet(
                OutcomeView::Failed(
                    ReceiverErrorView {
                        receiver: s.receiver,
                        kind: ReceiverErrorKind::Transport,
                        error: message@,
                        source_detail: source_detail@,
                    },
                ),
            ),
        ),
    }
}

/// The error for a batch that could not be encoded.
pub open spec fn encode_error(receiver: Seq<char>, message: Seq<char>) -> ReceiverErrorView {
    ReceiverErrorView {
        receiver,
        kind: ReceiverErrorKind::Other,
        error: message,
        source_detail: Seq::empty(),
    }
}

impl IngestState {
    /// A fresh loop state for the receiver `receiver`: nothing pending, the
    /// source not yet exhausted.
    pub fn new(receiver: String, batch_size: usize) -> (state: Self)
        requires
            batch_size > 0,
        ensures
            state@ == (IngestStateView {
                receiver: receiver@,
                batch_size: batch_size as nat,
                pending: Seq::empty(),
                read_complete: false,
            }),
            state@.wf(),
    {
        IngestState { receiver, batch_size, pending: Vec::new(), read_complete: false }
    }

    /// The receiver's id.
    pub fn receiver(&self) -> (r: &String)
        ensures
            r@ == self@.receiver,
    {
        &self.receiver
    }

    /// The batch size.
    pub fn batch_size(&self) -> (n: usize)
        ensures
            n == self@.batch_size,
    {
        self.batch_size
    }

    /// The records read and not yet sent.
    pub fn pending(&self) -> (p: &Vec<SourceLogRecord>)
        ensures
            p@ == self@.pending,
    {
        &self.pending
    }

    /// Whether the loop still asks the source for records: until it reports
    /// its end.
    pub fn should_poll_source(&self) -> (b: bool)
        ensures
            b == !self@.read_complete,
    {
        !self.read_complete
    }

    fn take_pending(&mut self) -> (taken: Vec<SourceLogRecord>)
        ensures
            taken@ == old(self)@.pending,
            final(self)@ == (IngestStateView { pending: Seq::empty(), ..old(self)@ }),
    {
        let mut taken: Vec<SourceLogRecord> = Vec::new();
        std::mem::swap(&mut taken, &mut self.pending);
        taken
    }

    /// Handles a control message: a drain flushes what is pending, reports
    /// drained and finishes; a shutdown finishes; anything else goes on.
    pub fn handle_control(&mut self, message: ControlMsg) -> (action: IngestAction)
        requires
            old(self)@.wf(),
        ensures
            final(self)@.wf(),
            (final(self)@, action@) == step_spec(old(self)@, IngestEvent::Control(message)),
            action@.notify_drained <==> message == ControlMsg::DrainIngress,
            message == ControlMsg::Other ==> action@.flush.len() == 0 && action@.outcome == OutcomeView::Continue
                && final(self)@ == old(self)@,
    {
        match message {
            ControlMsg::DrainIngress => {
                let flush = self.take_pending();
                IngestAction { flush, notify_drained: true, outcome: IngestOutcome::Finished }
            },
            ControlMsg::Shutdown => IngestAction {
                flush: Vec::new(),
                notify_drained: false,
                outcome: IngestOutcome::Finished,
            },
            ControlMsg::Other => IngestAction {
                flush: Vec::new(),
                notify_drained: false,
                outcome: IngestOutcome::Continue,
            },
        }
    }

    /// One turn of the loop. A record joins the pending ones, and a full batch
    /// of them is flushed; the end of the source flushes what is pending and
    /// stops the reading; a source error ends the loop with a transport error.
    pub fn on_event(&mut self, event: IngestEvent) -> (action: IngestAction)
        requires
            old(self)@.wf(),
            event.is_source_event() ==> !old(self)@.read_complete,
        ensures
            final(self)@.wf(),
            (final(self)@, action@) == step_spec(old(self)@, event),
            event is SourceEnd ==> {
                &&& action@.flush == old(self)@.pending
                &&& final(self)@.pending.len() == 0
                &&& final(self)@.read_complete
            },
            action@.notify_drained <==> event matches IngestEvent::Control(ControlMsg::DrainIngress),
    {
        match event {
            IngestEvent::Control(message) => self.handle_control(message),
            IngestEvent::Record(record) => {
                self.pending.push(record);
                if self.pending.len() == self.batch_size {
                    let flush = self.take_pending();
                    IngestAction { flush, notify_drained: false, outcome: IngestOutcome::Continue }
                } else {
                    IngestAction {
                        flush: Vec::new(),
                        notify_drained: false,
                        outcome: IngestOutcome::Continue,
                    }
                }
            },
            IngestEvent::SourceEnd => {
                let flush = self.take_pending();
                self.read_complete = true;
                IngestAction { flush, notify_drained: false, outcome: IngestOutcome::Continue }
            },
            IngestEvent::SourceFailed { message, source_detail } => {
                let error = source_error(&self.receiver, message, source_detail);
                IngestAction {
                    flush: Vec::new(),
                    notify_drained: false,
                    outcome: IngestOutcome::Failed(error),
                }
            },
        }
    }
}

/// Encodes records to send from a clock reading: nothing to send when there
/// are no records, else the batch of the records, or the receiver's `Other`
/// error with the encoding message and no source detail.
pub fn encode_records_at(receiver: &String, records: &Vec<SourceLogRecord>, clock: Result<u128, String>) -> (encoded: Result<Option<LogsBatch>, ReceiverError>)
    ensures
        records.len() == 0 ==> encoded matches Ok(None),
        records.len() > 0 ==> match batch_result(records@, clock) {
            Ok(rows) => encoded matches Ok(Some(b)) && b@ == rows,
            Err(m) => encoded matches Err(e) && e@ == encode_error(receiver@, m),
        },
        encoded matches Ok(Some(b)) ==> {
            &&& clock is Ok
            &&& b@.len() == records.len()
            &&& forall|i: int| #![trigger b@[i]] 0 <= i < records.len() ==> {
                &&& b@[i].time_unix_nano == b@[i].observed_time_unix_nano
                &&& (clock->Ok_0 <= i64::MAX as u128 ==> b@[i].time_unix_nano == clock->Ok_0 as i64)
                &&& (clock->Ok_0 > i64::MAX as u128 ==> b@[i].time_unix_nano == i64::MAX)
            }
        },
{
    if records.len() == 0 {
        return Ok(None);
    }
    match build_logs_batch(records, clock) {
        Ok(batch) => Ok(Some(batch)),
        Err(message) => Err(ReceiverError {
            receiver: receiver.clone(),
            kind: ReceiverErrorKind::Other,
            error: message,
            source_detail: String::new(),
        }),
    }
}

impl IngestState {
    /// Encodes records for sending, stamped with the current system time.
    /// Nothing is sent for no records (and the clock is not read). Whatever
    /// the clock reads, more than 65536 records give an error, every error is
    /// this receiver's `Other` error without source detail, and a batch that
    /// comes back holds one row per record, in order, with one non-negative
    /// timestamp.
    pub fn encode_records(&self, records: &Vec<SourceLogRecord>) -> (encoded: Result<Option<LogsBatch>, ReceiverError>)
        ensures
            records.len() == 0 ==> encoded matches Ok(None),
            records.len() > 0 ==> !(encoded matches Ok(None)),
            records.len() > MAX_BATCH_RECORDS ==> encoded is Err,
            encoded matches Ok(Some(b)) ==> exists|t: i64| t >= 0 && rows_match(b@, records@, t),
            encoded matches Err(e) ==> {
                &&& e@.receiver == self@.receiver
                &&& e@.kind == ReceiverErrorKind::Other
                &&& e@.source_detail == Seq::<char>::empty()
            },
    {
        if records.len() == 0 {
            return Ok(None);
        }
        let clock = unix_time_nanos();
        let ghost reading = clock;
        let encoded = encode_records_at(&self.receiver, records, clock);
        proof {
            if let Ok(n) = reading {
                if records.len() <= MAX_BATCH_RECORDS {
                    assert(clamp_timestamp(n) >= 0);
                    assert(rows_match(Seq::new(records@.len(), |i: int| row_for(records@[i]@, i, clamp_timestamp(n))), records@, clamp_timestamp(n)));
                }
            }
        }
        encoded
    }
}

} // verus!

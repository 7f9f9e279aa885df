use vstd::prelude::*;

use crate::ingest::{step_spec, ControlMsg, IngestEvent, IngestStateView, OutcomeView};
use crate::log_record::SourceLogRecord;

verus! {

/// The state after a run of events through the loop, and the non-empty
/// batches it sent, in order. Every event is taken as it comes.
pub open spec fn run_spec(s: IngestStateView, events: Seq<IngestEvent>) -> (IngestStateView, Seq<Seq<SourceLogRecord>>)
    decreases events.len(),
{
    if events.len() == 0 {
        (s, Seq::empty())
    } else {
        let next = step_spec(s, events[0]);
        let rest = run_spec(next.0, events.drop_first());
        (rest.0, if next.1.flush.len() > 0 { seq![next.1.flush] + rest.1 } else { rest.1 })
    }
}

/// The records that a run of events delivers from the source, in order.
pub open spec fn records_of(events: Seq<IngestEvent>) -> Seq<SourceLogRecord>
    decreases events.len(),
{
    if events.len() == 0 {
        Seq::empty()
    } else {
        let first = match events[0] {
            IngestEvent::Record(r) => seq![r],
            _ => Seq::empty(),
        };
        first + records_of(events.drop_first())
    }
}

/// No event of the run ends the loop.
pub open spec fn all_continue(events: Seq<IngestEvent>) -> bool {
    forall|i: int| 0 <= i < events.len() ==> !(#[trigger] events[i]).is_terminal()
}

proof fn lemma_flatten_cons(f: Seq<SourceLogRecord>, bs: Seq<Seq<SourceLogRecord>>)
    ensures
        (seq![f] + bs).flatten() == f + bs.flatten(),
{
    let x = seq![f] + bs;
    assert(x.drop_first() =~= bs);
    assert(x.first() == f);
}

/// While the loop goes on, no record is lost, duplicated or reordered: the
/// batches sent, followed by what is still pending, are exactly what was
/// pending before followed by the records the source delivered. Every batch
/// sent holds between 1 and `batch_size` records, fewer than `batch_size`
/// records stay pending, and the receiver and batch size do not change.
pub proof fn lemma_batches_preserve_records(s: IngestStateView, events: Seq<IngestEvent>)
    requires
        s.wf(),
        all_continue(events),
    ensures
        run_spec(s, events).1.flatten() + run_spec(s, events).0.pending == s.pending + records_of(events),
        run_spec(s, events).0.wf(),
        run_spec(s, events).0.receiver == s.receiver,
        run_spec(s, events).0.batch_size == s.batch_size,
        forall|j: int| 0 <= j < run_spec(s, events).1.len() ==> 0 < (#[trigger] run_spec(s, events).1[j]).len() <= s.batch_size,
    decreases events.len(),
{
    if events.len() == 0 {
        assert(s.pending + records_of(events) =~= s.pending);
        assert(Seq::<Seq<SourceLogRecord>>::empty().flatten() =~= Seq::<SourceLogRecord>::empty());
        assert(run_spec(s, events).1.flatten() + run_spec(s, events).0.pending =~= s.pending);
    } else {
        let e = events[0];
        let rest = events.drop_first();
        let next = step_spec(s, e);
        assert(!e.is_terminal());
        assert(all_continue(rest)) by {
            assert forall|i: int| 0 <= i < rest.len() implies !(#[trigger] rest[i]).is_terminal() by {
                assert(rest[i] == events[i + 1]);
            }
        }
        lemma_batches_preserve_records(next.0, rest);
        let tail = run_spec(next.0, rest);
        let here = match e {
            IngestEvent::Record(r) => seq![r],
            _ => Seq::<SourceLogRecord>::empty(),
        };
        assert(records_of(events) == here + records_of(rest));
        // One turn keeps the records: what it flushes, then what stays
        // pending, is what was pending followed by the event's record.
        assert(next.1.flush + next.0.pending =~= s.pending + here);
        assert(next.1.flush.len() <= s.batch_size);
        if next.1.flush.len() > 0 {
            lemma_flatten_cons(next.1.flush, tail.1);
            assert(run_spec(s, events).1 == seq![next.1.flush] + tail.1);
            assert(run_spec(s, events).1.flatten() + tail.0.pending =~= next.1.flush + (tail.1.flatten() + tail.0.pending));
            let all = seq![next.1.flush] + tail.1;
            assert forall|j: int| 0 <= j < all.len() implies 0 < (#[trigger] all[j]).len() <= s.batch_size by {
                if j > 0 {
                    assert(all[j] == tail.1[j - 1]);
                }
            }
        } else {
            assert(next.0.pending =~= s.pending + here);
        }
        assert(run_spec(s, events).1.flatten() + run_spec(s, events).0.pending =~= s.pending + records_of(events));
    }
}

/// A drain after any run that goes on delivers everything: the batches sent
/// are exactly what was pending followed by every record the source
/// delivered, nothing stays pending, and the receiver is reported drained
/// and finishes.
pub proof fn lemma_drain_delivers_all(s: IngestStateView, events: Seq<IngestEvent>)
    requires
        s.wf(),
        all_continue(events),
    ensures
        run_spec(s, events.push(IngestEvent::Control(ControlMsg::DrainIngress))).1.flatten() == s.pending + records_of(events),
        run_spec(s, events.push(IngestEvent::Control(ControlMsg::DrainIngress))).0.pending.len() == 0,
        step_spec(run_spec(s, events).0, IngestEvent::Control(ControlMsg::DrainIngress)).1.notify_drained,
        step_spec(run_spec(s, events).0, IngestEvent::Control(ControlMsg::DrainIngress)).1.outcome == OutcomeView::Finished,
    decreases events.len(),
{
    let drain = IngestEvent::Control(ControlMsg::DrainIngress);
    let all = events.push(drain);
    lemma_batches_preserve_records(s, events);
    lemma_run_push(s, events, drain);
    let before = run_spec(s, events);
    let last = step_spec(before.0, drain);
    if last.1.flush.len() > 0 {
        vstd::seq_lib::lemma_flatten_concat(before.1, seq![last.1.flush]);
        assert(seq![last.1.flush].flatten() =~= last.1.flush) by {
            lemma_flatten_cons(last.1.flush, Seq::empty());
            assert(Seq::<Seq<SourceLogRecord>>::empty().flatten() =~= Seq::<SourceLogRecord>::empty());
        }
        assert(before.1.flatten() + before.0.pending =~= before.1.flatten() + last.1.flush);
    } else {
        assert(before.0.pending =~= Seq::<SourceLogRecord>::empty());
        assert(before.1.flatten() + before.0.pending =~= before.1.flatten());
    }
}

/// Running events and then one more is running the events, then taking that
/// one turn.
pub proof fn lemma_run_push(s: IngestStateView, events: Seq<IngestEvent>, e: IngestEvent)
    ensures
        run_spec(s, events.push(e)).0 == step_spec(run_spec(s, events).0, e).0,
        run_spec(s, events.push(e)).1 == (if step_spec(run_spec(s, events).0, e).1.flush.len() > 0 {
            run_spec(s, events).1 + seq![step_spec(run_spec(s, events).0, e).1.flush]
        } else {
            run_spec(s, events).1
        }),
    decreases events.len(),
{
    let pushed = events.push(e);
    if events.len() == 0 {
        assert(pushed.drop_first() =~= Seq::<IngestEvent>::empty());
        assert(pushed[0] == e);
        let next = step_spec(s, e);
        assert(run_spec(next.0, pushed.drop_first()) == (next.0, Seq::<Seq<SourceLogRecord>>::empty()));
        assert(run_spec(s, events) == (s, Seq::<Seq<SourceLogRecord>>::empty()));
        assert(Seq::<Seq<SourceLogRecord>>::empty() + seq![next.1.flush] =~= seq![next.1.flush]);
        assert(seq![next.1.flush] + Seq::<Seq<SourceLogRecord>>::empty() =~= seq![next.1.flush]);
    } else {
        let next = step_spec(s, events[0]);
        let rest = events.drop_first();
        assert(pushed[0] == events[0]);
        assert(pushed.drop_first() =~= rest.push(e));
        lemma_run_push(next.0, rest, e);
        let inner = run_spec(next.0, rest);
        let last = step_spec(inner.0, e);
        assert(run_spec(s, pushed) == (run_spec(next.0, rest.push(e)).0,
            if next.1.flush.len() > 0 { seq![next.1.flush] + run_spec(next.0, rest.push(e)).1 } else { run_spec(next.0, rest.push(e)).1 }));
        assert(run_spec(s, events) == (inner.0,
            if next.1.flush.len() > 0 { seq![next.1.flush] + inner.1 } else { inner.1 }));
        if next.1.flush.len() > 0 {
            if last.1.flush.len() > 0 {
                assert(seq![next.1.flush] + (inner.1 + seq![last.1.flush])
                    =~= (seq![next.1.flush] + inner.1) + seq![last.1.flush]);
            }
        }
    }
}

/// When the source reports its end, everything pending is sent as one batch,
/// in order, nothing stays pending, the source is not asked again, and the
/// loop goes on.
pub proof fn lemma_source_end_flushes_all(s: IngestStateView)
    requires
        s.wf(),
    ensures
        step_spec(s, IngestEvent::SourceEnd).1.flush == s.pending,
        step_spec(s, IngestEvent::SourceEnd).0.pending.len() == 0,
        step_spec(s, IngestEvent::SourceEnd).0.read_complete,
        step_spec(s, IngestEvent::SourceEnd).0.batch_size == s.batch_size,
        !step_spec(s, IngestEvent::SourceEnd).1.notify_drained,
        step_spec(s, IngestEvent::SourceEnd).1.outcome == OutcomeView::Continue,
{
}

/// The receiver is reported drained on a drain message and on no other event.
pub proof fn lemma_only_drain_notifies(s: IngestStateView, e: IngestEvent)
    ensures
        step_spec(s, e).1.notify_drained <==> e matches IngestEvent::Control(ControlMsg::DrainIngress),
{
}

/// A control message other than drain or shutdown changes nothing: no batch,
/// no drained report, the state as it was, and the loop goes on.
pub proof fn lemma_other_control_ignored(s: IngestStateView)
    ensures
        step_spec(s, IngestEvent::Control(ControlMsg::Other)).0 == s,
        step_spec(s, IngestEvent::Control(ControlMsg::Other)).1.flush.len() == 0,
        !step_spec(s, IngestEvent::Control(ControlMsg::Other)).1.notify_drained,
        step_spec(s, IngestEvent::Control(ControlMsg::Other)).1.outcome == OutcomeView::Continue,
{
}

/// Once the source has reported its end, the loop never asks it again.
pub proof fn lemma_read_complete_stays(s: IngestStateView, events: Seq<IngestEvent>)
    requires
        s.read_complete,
    ensures
        run_spec(s, events).0.read_complete,
    decreases events.len(),
{
    if events.len() > 0 {
        lemma_read_complete_stays(step_spec(s, events[0]).0, events.drop_first());
    }
}

} // verus!

use crate::buffer::{complete_spec, handle_spec, threshold_reached, BufferView, Event, ERROR_REPORT_SIZE};
use crate::error::TransportError;
use serde_gelf::GelfRecord;
use vstd::prelude::*;

verus! {

/// One turn of the consumer loop: the event is handled and, if a delivery
/// is due, the batch is handed to the transport, whose outcome is
/// `outcome`. Returns the new state and the batch delivered, if any.
pub open spec fn step_spec(s: BufferView, e: Event, outcome: Result<(), TransportError>) -> (
    BufferView,
    Option<Seq<GelfRecord>>,
) {
    let (t, due) = handle_spec(s, e);
    if due {
        (complete_spec(t, outcome).0, Some(t.items))
    } else {
        (t, None)
    }
}

/// The consumer loop run over `events`, where a delivery made on the event
/// at index `i` has the outcome `outcomes[i]`. Returns the final state and
/// every batch handed to the transport, in order.
pub open spec fn run_spec(
    s: BufferView,
    events: Seq<Event>,
    outcomes: Seq<Result<(), TransportError>>,
) -> (BufferView, Seq<Seq<GelfRecord>>)
    decreases events.len(),
{
    if events.len() == 0 {
        (s, Seq::empty())
    } else {
        let (prev, calls) = run_spec(s, events.drop_last(), outcomes);
        let (next, call) = step_spec(prev, events.last(), outcomes[events.len() - 1]);
        match call {
            Some(b) => (next, calls.push(b)),
            None => (next, calls),
        }
    }
}

/// One `Data` event for each record, in order.
pub open spec fn data_events(rs: Seq<GelfRecord>) -> Seq<Event> {
    rs.map_values(|r: GelfRecord| Event::Data(r))
}

/// The records carried by the `Data` events among `events`, in order.
pub open spec fn records_of(events: Seq<Event>) -> Seq<GelfRecord>
    decreases events.len(),
{
    if events.len() == 0 {
        Seq::empty()
    } else {
        match events.last() {
            Event::Data(r) => records_of(events.drop_last()).push(r),
            Event::Send => records_of(events.drop_last()),
        }
    }
}

/// The failure log after `errs` are met one after another, with the
/// reports made on the way.
pub open spec fn fail_spec(s: BufferView, errs: Seq<TransportError>) -> (
    BufferView,
    Seq<Seq<TransportError>>,
)
    decreases errs.len(),
{
    if errs.len() == 0 {
        (s, Seq::empty())
    } else {
        let (prev, reports) = fail_spec(s, errs.drop_last());
        let (next, report) = complete_spec(prev, Err(errs.last()));
        match report {
            Some(r) => (next, reports.push(r)),
            None => (next, reports),
        }
    }
}

/// Records that arrive without reaching the size threshold are appended to
/// the batch, and nothing is delivered.
pub proof fn lemma_data_accumulates(
    s: BufferView,
    rs: Seq<GelfRecord>,
    outcomes: Seq<Result<(), TransportError>>,
)
    requires
        !threshold_reached(s.threshold, s.items.len() + rs.len()),
    ensures
        run_spec(s, data_events(rs), outcomes) == (
        BufferView { items: s.items + rs, ..s },
        Seq::<Seq<GelfRecord>>::empty(),
        ),
    decreases rs.len(),
{
    if rs.len() == 0 {
        assert(s.items + rs =~= s.items);
    } else {
        let init = rs.drop_last();
        assert(data_events(rs).drop_last() =~= data_events(init));
        lemma_data_accumulates(s, init, outcomes);
        assert(s.items + init.push(rs.last()) =~= (s.items + init).push(rs.last()));
        assert(init.push(rs.last()) =~= rs);
    }
}

/// A batch of records followed by `Send`, all deliveries succeeding, ends
/// in exactly one delivery that carries every record in arrival order, and
/// leaves the batch empty. This needs at least one record, a starting batch
/// that is empty, and no size threshold below the number of records.
pub proof fn lemma_flush_delivers_all(
    s: BufferView,
    rs: Seq<GelfRecord>,
    outcomes: Seq<Result<(), TransportError>>,
)
    requires
        s.items.len() == 0,
        rs.len() > 0,
        s.threshold is Some ==> s.threshold->0 >= rs.len(),
        outcomes.len() == rs.len() + 1,
        forall|i: int| 0 <= i < outcomes.len() ==> #[trigger] outcomes[i] is Ok,
    ensures
        run_spec(s, data_events(rs).push(Event::Send), outcomes) == (
        BufferView { items: Seq::empty(), ..s },
        seq![rs],
        ),
{
    let es = data_events(rs).push(Event::Send);
    assert(es.drop_last() =~= data_events(rs));
    assert(outcomes[rs.len() as int] is Ok);
    if s.threshold is Some && s.threshold->0 == rs.len() {
        let init = rs.drop_last();
        assert(data_events(rs).drop_last() =~= data_events(init));
        lemma_data_accumulates(s, init, outcomes);
        assert(s.items + init =~= init);
        assert(init.push(rs.last()) =~= rs);
        assert(outcomes[rs.len() - 1] is Ok);
        assert(seq![].push(rs) =~= seq![rs]);
    } else {
        lemma_data_accumulates(s, rs, outcomes);
        assert(s.items + rs =~= rs);
        assert(seq![].push(rs) =~= seq![rs]);
    }
}

/// Records that bring the batch up to a positive size threshold cause one
/// delivery, made on the last of them, of the whole batch; no record past
/// the threshold joins that batch first.
pub proof fn lemma_threshold_triggers_delivery(
    s: BufferView,
    rs: Seq<GelfRecord>,
    outcomes: Seq<Result<(), TransportError>>,
)
    requires
        s.threshold is Some,
        s.threshold->0 > 0,
        s.items.len() < s.threshold->0,
        s.items.len() + rs.len() == s.threshold->0,
    ensures
        run_spec(s, data_events(rs), outcomes).1 == seq![s.items + rs],
{
    let init = rs.drop_last();
    assert(data_events(rs).drop_last() =~= data_events(init));
    lemma_data_accumulates(s, init, outcomes);
    assert((s.items + init).push(rs.last()) =~= s.items + rs);
    assert(seq![].push(s.items + rs) =~= seq![s.items + rs]);
}

/// `Send` on an empty batch delivers nothing and changes nothing, the
/// failure log included.
pub proof fn lemma_empty_flush_is_silent(s: BufferView, outcome: Result<(), TransportError>)
    requires
        s.items.len() == 0,
    ensures
        step_spec(s, Event::Send, outcome) == (s, None::<Seq<GelfRecord>>),
{
}

/// While every delivery fails, no record is lost or reordered: the batch is
/// the starting batch followed by every record that arrived since.
pub proof fn lemma_failures_keep_records(
    s: BufferView,
    events: Seq<Event>,
    outcomes: Seq<Result<(), TransportError>>,
)
    requires
        forall|i: int| 0 <= i < events.len() ==> #[trigger] outcomes[i] is Err,
    ensures
        run_spec(s, events, outcomes).0.items == s.items + records_of(events),
        run_spec(s, events, outcomes).0.threshold == s.threshold,
    decreases events.len(),
{
    if events.len() == 0 {
        assert(s.items + records_of(events) =~= s.items);
    } else {
        lemma_failures_keep_records(s, events.drop_last(), outcomes);
        assert(outcomes[events.len() - 1] is Err);
        match events.last() {
            Event::Data(r) => {
                assert(s.items + records_of(events.drop_last()).push(r) =~= (s.items
                    + records_of(events.drop_last())).push(r));
            },
            Event::Send => {},
        }
    }
}

/// After a run of failed deliveries, the next delivery that succeeds carries
/// the records kept from the failed ones followed by those that arrived
/// since, in their original order, and empties the batch.
pub proof fn lemma_next_success_delivers_kept(
    s: BufferView,
    events: Seq<Event>,
    e: Event,
    outcomes: Seq<Result<(), TransportError>>,
)
    requires
        forall|i: int| 0 <= i < events.len() ==> #[trigger] outcomes[i] is Err,
        outcomes[events.len() as int] is Ok,
        handle_spec(run_spec(s, events, outcomes).0, e).1,
    ensures
        run_spec(s, events.push(e), outcomes).1.last() == s.items + records_of(events.push(e)),
        run_spec(s, events.push(e), outcomes).0.items.len() == 0,
{
    lemma_failures_keep_records(s, events, outcomes);
    assert(events.push(e).drop_last() =~= events);
    match e {
        Event::Data(r) => {
            assert(s.items + records_of(events).push(r) =~= (s.items + records_of(events)).push(r));
        },
        Event::Send => {},
    }
}

/// Starting from an empty failure log, the first failures are kept in order
/// until the log would reach `ERROR_REPORT_SIZE`.
proof fn lemma_failures_gather(s: BufferView, errs: Seq<TransportError>)
    requires
        s.errors.len() == 0,
        errs.len() < ERROR_REPORT_SIZE,
    ensures
        fail_spec(s, errs) == (
        BufferView { errors: errs, ..s },
        Seq::<Seq<TransportError>>::empty(),
        ),
    decreases errs.len(),
{
    if errs.len() > 0 {
        lemma_failures_gather(s, errs.drop_last());
        assert(errs.drop_last().push(errs.last()) =~= errs);
    } else {
        assert(errs =~= s.errors);
    }
}

/// Five failed deliveries in a row, from an empty failure log, are reported
/// together and empty the log; the sixth starts a new log of one.
pub proof fn lemma_error_log_resets(s: BufferView, errs: Seq<TransportError>)
    requires
        s.errors.len() == 0,
        errs.len() == ERROR_REPORT_SIZE + 1,
    ensures
        fail_spec(s, errs.take(5)) == (
        BufferView { errors: Seq::empty(), ..s },
        seq![errs.take(5)],
        ),
        fail_spec(s, errs) == (BufferView { errors: seq![errs[5]], ..s }, seq![errs.take(5)]),
{
    let five = errs.take(5);
    assert(five.drop_last() =~= errs.take(4));
    lemma_failures_gather(s, errs.take(4));
    assert(errs.take(4).push(five.last()) =~= five);
    assert(seq![].push(five) =~= seq![five]);
    assert(errs.drop_last() =~= five);
    assert(Seq::<TransportError>::empty().push(errs[5]) =~= seq![errs[5]]);
}

} // verus!

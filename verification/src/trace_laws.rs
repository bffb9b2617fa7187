//! What replacing the fee does to a trace as a whole.
use vstd::prelude::*;

use crate::text::{decimal, hexadecimal};
use crate::trace::{
    calldata_moves, carries_fee, fee_carrier, fee_event_count, fee_event_count_in,
    reconciled_trace, replace_in_call, replace_in_event, saturated, trace_outcome, CallInfo,
    CallModel, EventModel,
};

verus! {

/// The calls with the fee replaced in each.
spec fn replace_in_calls(
    calls: Seq<CallModel>,
    selector: nat,
    calculated: nat,
    committed: nat,
) -> Seq<CallModel> {
    calls.map_values(|call: CallModel| replace_in_call(call, selector, calculated, committed))
}

/// The events with the fee replaced in each.
spec fn replace_in_events(
    events: Seq<EventModel>,
    selector: nat,
    calculated: nat,
    committed: nat,
) -> Seq<EventModel> {
    events.map_values(
        |event: EventModel| replace_in_event(event, selector, calculated, committed),
    )
}

/// How many of a call's own events carry a fee once another was replaced.
proof fn lemma_events_after_replacement(
    events: Seq<EventModel>,
    selector: nat,
    calculated: nat,
    committed: nat,
)
    requires
        calculated != committed,
    ensures
        replace_in_events(events, selector, calculated, committed).filter(
            fee_carrier(selector, calculated),
        ).len() == 0,
        replace_in_events(events, selector, calculated, committed).filter(
            fee_carrier(selector, committed),
        ).len() == events.filter(fee_carrier(selector, calculated)).len() + events.filter(
            fee_carrier(selector, committed),
        ).len(),
    decreases events.len(),
{
    reveal(Seq::filter);
    let replaced = replace_in_events(events, selector, calculated, committed);
    if events.len() > 0 {
        lemma_events_after_replacement(events.drop_last(), selector, calculated, committed);
        assert(replaced.drop_last() =~= replace_in_events(
            events.drop_last(),
            selector,
            calculated,
            committed,
        ));
    }
}

proof fn lemma_call_after_replacement(
    call: CallModel,
    selector: nat,
    calculated: nat,
    committed: nat,
)
    requires
        calculated != committed,
    ensures
        fee_event_count(
            replace_in_call(call, selector, calculated, committed),
            selector,
            calculated,
        ) == 0,
        fee_event_count(
            replace_in_call(call, selector, calculated, committed),
            selector,
            committed,
        ) == fee_event_count(call, selector, calculated) + fee_event_count(
            call,
            selector,
            committed,
        ),
    decreases call,
{
    let replaced = replace_in_call(call, selector, calculated, committed);
    lemma_events_after_replacement(call.events, selector, calculated, committed);
    assert(replaced.events =~= replace_in_events(call.events, selector, calculated, committed));
    lemma_calls_after_replacement(call.inner_calls, selector, calculated, committed);
    assert(replaced.inner_calls =~= replace_in_calls(
        call.inner_calls,
        selector,
        calculated,
        committed,
    ));
}

proof fn lemma_calls_after_replacement(
    calls: Seq<CallModel>,
    selector: nat,
    calculated: nat,
    committed: nat,
)
    requires
        calculated != committed,
    ensures
        fee_event_count_in(
            replace_in_calls(calls, selector, calculated, committed),
            selector,
            calculated,
        ) == 0,
        fee_event_count_in(
            replace_in_calls(calls, selector, calculated, committed),
            selector,
            committed,
        ) == fee_event_count_in(calls, selector, calculated) + fee_event_count_in(
            calls,
            selector,
            committed,
        ),
    decreases calls,
{
    let replaced = replace_in_calls(calls, selector, calculated, committed);
    if calls.len() > 0 {
        lemma_calls_after_replacement(calls.drop_last(), selector, calculated, committed);
        lemma_call_after_replacement(calls.last(), selector, calculated, committed);
        assert(replaced.drop_last() =~= replace_in_calls(
            calls.drop_last(),
            selector,
            calculated,
            committed,
        ));
    }
}

/// After the replacement no transfer event carries the calculated fee any more, and those that did
/// carry the committed fee, beside those that always did.
pub proof fn law_replacement_is_complete(
    call: CallModel,
    selector: nat,
    calculated: nat,
    committed: nat,
)
    requires
        calculated != committed,
    ensures
        fee_event_count(
            replace_in_call(call, selector, calculated, committed),
            selector,
            calculated,
        ) == 0,
        fee_event_count(
            replace_in_call(call, selector, calculated, committed),
            selector,
            committed,
        ) == fee_event_count(call, selector, calculated) + fee_event_count(
            call,
            selector,
            committed,
        ),
{
    lemma_call_after_replacement(call, selector, calculated, committed);
}

/// The replacement touches the amounts of events and nothing else: calldata, the number and order
/// of events and calls, keys, and all other data stay.
pub proof fn law_replacement_touches_amounts_only(
    call: CallModel,
    selector: nat,
    calculated: nat,
    committed: nat,
)
    ensures
        ({
            let replaced = replace_in_call(call, selector, calculated, committed);
            &&& replaced.calldata == call.calldata
            &&& replaced.events.len() == call.events.len()
            &&& replaced.inner_calls.len() == call.inner_calls.len()
            &&& forall|i: int|
                0 <= i < call.events.len() ==> {
                    &&& (#[trigger] replaced.events[i]).order == call.events[i].order
                    &&& replaced.events[i].keys == call.events[i].keys
                    &&& replaced.events[i].data.len() == call.events[i].data.len()
                    &&& forall|k: int|
                        0 <= k < call.events[i].data.len() && k != 2
                            ==> #[trigger] replaced.events[i].data[k] == call.events[i].data[k]
                }
            &&& forall|i: int|
                0 <= i < call.inner_calls.len() ==> #[trigger] replaced.inner_calls[i]
                    == replace_in_call(call.inner_calls[i], selector, calculated, committed)
        }),
{
}

/// Replacing a fee by itself changes nothing.
pub proof fn law_replacement_by_same_fee(call: CallModel, selector: nat, fee: nat)
    ensures
        replace_in_call(call, selector, fee, fee) == call,
    decreases call,
{
    let replaced = replace_in_call(call, selector, fee, fee);
    assert forall|i: int| 0 <= i < call.events.len() implies replaced.events[i]
        == call.events[i] by {
        if carries_fee(call.events[i], selector, fee) {
            assert(call.events[i].data.update(2, fee) =~= call.events[i].data);
        }
    }
    assert(replaced.events =~= call.events);
    assert forall|i: int| 0 <= i < call.inner_calls.len() implies replaced.inner_calls[i]
        == call.inner_calls[i] by {
        law_replacement_by_same_fee(call.inner_calls[i], selector, fee);
    }
    assert(replaced.inner_calls =~= call.inner_calls);
}

/// A trace without events of this fee has none in its own events.
proof fn lemma_no_event_carries(events: Seq<EventModel>, selector: nat, fee: nat, i: int)
    requires
        events.filter(fee_carrier(selector, fee)).len() == 0,
        0 <= i < events.len(),
    ensures
        !carries_fee(events[i], selector, fee),
{
    broadcast use Seq::lemma_filter_contains;

    let pred = fee_carrier(selector, fee);
    if pred(events[i]) {
        assert(events.filter(pred).contains(events[i]));
    }
}

/// Calls without events of this fee have none in any one of them.
proof fn lemma_no_call_carries(calls: Seq<CallModel>, selector: nat, fee: nat, i: int)
    requires
        fee_event_count_in(calls, selector, fee) == 0,
        0 <= i < calls.len(),
    ensures
        fee_event_count(calls[i], selector, fee) == 0,
    decreases calls.len(),
{
    if i < calls.len() - 1 {
        lemma_no_call_carries(calls.drop_last(), selector, fee, i);
    }
}

/// Where no transfer event carried the committed fee before, replacing it by the calculated fee
/// gives the trace back.
pub proof fn law_replacement_undone(
    call: CallModel,
    selector: nat,
    calculated: nat,
    committed: nat,
)
    requires
        fee_event_count(call, selector, committed) == 0,
    ensures
        replace_in_call(
            replace_in_call(call, selector, calculated, committed),
            selector,
            committed,
            calculated,
        ) == call,
    decreases call,
{
    let replaced = replace_in_call(call, selector, calculated, committed);
    let back = replace_in_call(replaced, selector, committed, calculated);
    assert forall|i: int| 0 <= i < call.events.len() implies back.events[i] == call.events[i] by {
        lemma_no_event_carries(call.events, selector, committed, i);
        if carries_fee(call.events[i], selector, calculated) {
            assert(call.events[i].data.update(2, committed).update(2, calculated)
                =~= call.events[i].data);
        }
    }
    assert(back.events =~= call.events);
    assert forall|i: int| 0 <= i < call.inner_calls.len() implies back.inner_calls[i]
        == call.inner_calls[i] by {
        lemma_no_call_carries(call.inner_calls, selector, committed, i);
        law_replacement_undone(call.inner_calls[i], selector, calculated, committed);
    }
    assert(back.inner_calls =~= call.inner_calls);
}

/// A trace that was reconciled moves the committed fee: its calldata does, and, where no transfer
/// event carried that fee before, exactly one of its events does.
pub proof fn law_reconciled_trace_moves_committed_fee(
    call: CallModel,
    selector: nat,
    calculated: nat,
    committed: nat,
)
    requires
        trace_outcome(call, selector, calculated) is Ok,
    ensures
        calldata_moves(
            reconciled_trace(call, selector, calculated, committed).calldata,
            committed,
        ),
        calculated == committed || fee_event_count(call, selector, committed) == 0
            ==> trace_outcome(
            reconciled_trace(call, selector, calculated, committed),
            selector,
            committed,
        ) is Ok,
{
    let replaced = replace_in_call(call, selector, calculated, committed);
    let reconciled = reconciled_trace(call, selector, calculated, committed);
    if calculated == committed {
        law_replacement_by_same_fee(call, selector, calculated);
    } else {
        law_replacement_is_complete(call, selector, calculated, committed);
    }
    assert(fee_event_count(reconciled, selector, committed) == fee_event_count(
        replaced,
        selector,
        committed,
    ));
}

/// Whether an event with this selector says that exactly `fee` was moved.
pub open spec fn says_moved(event: EventModel, selector: nat, fee: nat) -> bool {
    &&& event.keys.len() == 1
    &&& event.keys[0] == selector
    &&& event.data.len() == 4
    &&& event.data[2] == fee
    &&& event.data[3] == 0
}

/// Whether `after` is `before` but for the amount, which is `to` where it was said that `from` was
/// moved.
pub open spec fn event_rewritten(
    before: EventModel,
    after: EventModel,
    selector: nat,
    from: nat,
    to: nat,
) -> bool {
    &&& after.order == before.order
    &&& after.keys == before.keys
    &&& after.data.len() == before.data.len()
    &&& forall|k: int|
        0 <= k < before.data.len() ==> #[trigger] after.data[k] == (if k == 2 && says_moved(
            before,
            selector,
            from,
        ) {
            to
        } else {
            before.data[k]
        })
}

/// Whether the events of `after` and of the calls below it are those of `before`, rewritten one for
/// one, and the calls below it have the calldata that they had.
pub open spec fn events_rewritten(
    before: CallModel,
    after: CallModel,
    selector: nat,
    from: nat,
    to: nat,
) -> bool
    decreases before,
{
    &&& after.events.len() == before.events.len()
    &&& forall|i: int|
        0 <= i < before.events.len() ==> event_rewritten(
            before.events[i],
            #[trigger] after.events[i],
            selector,
            from,
            to,
        )
    &&& after.inner_calls.len() == before.inner_calls.len()
    &&& forall|i: int|
        0 <= i < before.inner_calls.len() ==> {
            &&& (#[trigger] after.inner_calls[i]).calldata == before.inner_calls[i].calldata
            &&& events_rewritten(before.inner_calls[i], after.inner_calls[i], selector, from, to)
        }
}

/// The events of a call, followed by those of the calls below it.
pub open spec fn events_within(call: CallModel) -> Seq<EventModel>
    decreases call,
{
    call.events + events_within_all(call.inner_calls)
}

/// The events of these calls and of the calls below them, call by call.
pub open spec fn events_within_all(calls: Seq<CallModel>) -> Seq<EventModel>
    decreases calls,
{
    if calls.len() == 0 {
        Seq::empty()
    } else {
        events_within_all(calls.drop_last()) + events_within(calls.last())
    }
}

/// How many events of a call and of the calls below it say that exactly `fee` was moved.
pub open spec fn times_moved(call: CallModel, selector: nat, fee: nat) -> nat {
    events_within(call).filter(|event: EventModel| says_moved(event, selector, fee)).len()
}

proof fn lemma_carries_by_fields(event: EventModel, selector: nat, fee: nat)
    ensures
        carries_fee(event, selector, fee) <==> says_moved(event, selector, fee),
{
    if event.keys.len() == 1 && event.keys[0] == selector {
        assert(event.keys =~= seq![selector]);
    }
}

proof fn lemma_carrier_by_fields(selector: nat, fee: nat)
    ensures
        fee_carrier(selector, fee) == (|event: EventModel| says_moved(event, selector, fee)),
{
    let pred = fee_carrier(selector, fee);
    let by_fields = |event: EventModel| says_moved(event, selector, fee);
    assert forall|event: EventModel| #[trigger] pred(event) == by_fields(event) by {
        lemma_carries_by_fields(event, selector, fee);
    }
    assert(pred =~= by_fields);
}

proof fn lemma_count_in_call(call: CallModel, selector: nat, fee: nat)
    ensures
        fee_event_count(call, selector, fee) == events_within(call).filter(
            fee_carrier(selector, fee),
        ).len(),
    decreases call,
{
    lemma_count_in_calls(call.inner_calls, selector, fee);
    Seq::filter_distributes_over_add(
        call.events,
        events_within_all(call.inner_calls),
        fee_carrier(selector, fee),
    );
}

proof fn lemma_count_in_calls(calls: Seq<CallModel>, selector: nat, fee: nat)
    ensures
        fee_event_count_in(calls, selector, fee) == events_within_all(calls).filter(
            fee_carrier(selector, fee),
        ).len(),
    decreases calls,
{
    if calls.len() == 0 {
        reveal(Seq::filter);
    } else {
        lemma_count_in_calls(calls.drop_last(), selector, fee);
        lemma_count_in_call(calls.last(), selector, fee);
        Seq::filter_distributes_over_add(
            events_within_all(calls.drop_last()),
            events_within(calls.last()),
            fee_carrier(selector, fee),
        );
    }
}

/// The count takes in every event of the call and of the calls below it, however deep, that says
/// that exactly the fee was moved, and no other. Up to the largest `usize` it is handed out as it
/// is.
pub proof fn law_every_fee_event_is_counted(call: CallModel, selector: nat, fee: nat)
    ensures
        fee_event_count(call, selector, fee) == times_moved(call, selector, fee),
        times_moved(call, selector, fee) <= usize::MAX ==> saturated(
            fee_event_count(call, selector, fee),
        ) == times_moved(call, selector, fee),
        times_moved(call, selector, fee) > usize::MAX ==> saturated(
            fee_event_count(call, selector, fee),
        ) == usize::MAX,
{
    lemma_count_in_call(call, selector, fee);
    lemma_carrier_by_fields(selector, fee);
}

/// The replacement rewrites the amount of every event, however deep, that says that the calculated
/// fee was moved, and leaves everything else as it is.
pub proof fn law_replacement_rewrites_these_amounts(
    call: CallModel,
    selector: nat,
    calculated: nat,
    committed: nat,
)
    ensures
        replace_in_call(call, selector, calculated, committed).calldata == call.calldata,
        events_rewritten(
            call,
            replace_in_call(call, selector, calculated, committed),
            selector,
            calculated,
            committed,
        ),
    decreases call,
{
    let after = replace_in_call(call, selector, calculated, committed);
    assert forall|i: int| 0 <= i < call.events.len() implies event_rewritten(
        call.events[i],
        #[trigger] after.events[i],
        selector,
        calculated,
        committed,
    ) by {
        lemma_carries_by_fields(call.events[i], selector, calculated);
    }
    assert forall|i: int| 0 <= i < call.inner_calls.len() implies {
        &&& (#[trigger] after.inner_calls[i]).calldata == call.inner_calls[i].calldata
        &&& events_rewritten(
            call.inner_calls[i],
            after.inner_calls[i],
            selector,
            calculated,
            committed,
        )
    } by {
        law_replacement_rewrites_these_amounts(
            call.inner_calls[i],
            selector,
            calculated,
            committed,
        );
    }
}

/// Where the calldata moves the calculated fee, the reconciled trace moves the committed one: of the
/// calldata the amount alone changes, so that the recipient stays, and the events are rewritten.
pub proof fn law_reconciled_trace_keeps_the_rest(
    call: CallModel,
    selector: nat,
    calculated: nat,
    committed: nat,
)
    requires
        call.calldata.len() == 3,
        call.calldata[1] == calculated,
        call.calldata[2] == 0,
    ensures
        ({
            let after = reconciled_trace(call, selector, calculated, committed);
            &&& after.calldata.len() == 3
            &&& after.calldata[0] == call.calldata[0]
            &&& after.calldata[1] == committed
            &&& after.calldata[2] == 0
            &&& events_rewritten(call, after, selector, calculated, committed)
        }),
{
    law_replacement_rewrites_these_amounts(call, selector, calculated, committed);
    let replaced = replace_in_call(call, selector, calculated, committed);
    let after = reconciled_trace(call, selector, calculated, committed);
    assert(after.events == replaced.events && after.inner_calls == replaced.inner_calls);
}

/// Whatever the trace and the fees, the reconciled trace has as many fields of calldata as before,
/// and all but the amount are what they were.
pub proof fn law_calldata_keeps_all_but_the_amount(
    call: CallModel,
    selector: nat,
    calculated: nat,
    committed: nat,
)
    ensures
        ({
            let after = reconciled_trace(call, selector, calculated, committed);
            &&& after.calldata.len() == call.calldata.len()
            &&& forall|k: int|
                0 <= k < call.calldata.len() && k != 1 ==> #[trigger] after.calldata[k]
                    == call.calldata[k]
        }),
{
}

/// Where the calldata does not move the calculated fee, the trace stays as it is.
pub proof fn law_other_trace_is_left_alone(
    call: CallModel,
    selector: nat,
    calculated: nat,
    committed: nat,
)
    requires
        call.calldata.len() != 3 || call.calldata[1] != calculated || call.calldata[2] != 0,
    ensures
        reconciled_trace(call, selector, calculated, committed) == call,
{
}

/// A trace can be reconciled exactly where its calldata moves the calculated fee and exactly one
/// event in it says so; otherwise the reason tells what is there in place of that.
pub proof fn law_trace_is_refused_with_what_it_has(call: CallModel, selector: nat, calculated: nat)
    ensures
        ({
            let outcome = trace_outcome(call, selector, calculated);
            let count = times_moved(call, selector, calculated);
            if call.calldata.len() != 3 {
                outcome == Err::<(), Seq<char>>(
                    "fee-transfer calldata has "@ + decimal(call.calldata.len())
                        + " fields, expected 3"@,
                )
            } else if call.calldata[1] != calculated || call.calldata[2] != 0 {
                outcome == Err::<(), Seq<char>>(
                    "fee-transfer calldata does not contain the calculated fee "@ + decimal(
                        calculated,
                    ) + "; got ["@ + hexadecimal(call.calldata[1]) + ", "@ + hexadecimal(
                        call.calldata[2],
                    ) + "]"@,
                )
            } else if count != 1 {
                outcome == Err::<(), Seq<char>>(
                    "fee-transfer trace contained "@ + decimal(
                        if count <= usize::MAX {
                            count
                        } else {
                            usize::MAX as nat
                        },
                    ) + " events with calculated fee "@ + decimal(calculated)
                        + "; expected exactly 1"@,
                )
            } else {
                outcome == Ok::<(), Seq<char>>(())
            }
        }),
{
    law_every_fee_event_is_counted(call, selector, calculated);
}

/// In a trace that was reconciled exactly one event says that the committed fee was moved, where
/// none did before, and none says any longer that the calculated one was, where they differ.
pub proof fn law_reconciled_trace_says_committed_fee(
    call: CallModel,
    selector: nat,
    calculated: nat,
    committed: nat,
)
    requires
        trace_outcome(call, selector, calculated) is Ok,
        calculated != committed,
    ensures
        ({
            let after = reconciled_trace(call, selector, calculated, committed);
            &&& times_moved(after, selector, committed) == 1 + times_moved(
                call,
                selector,
                committed,
            )
            &&& times_moved(after, selector, calculated) == 0
        }),
{
    let replaced = replace_in_call(call, selector, calculated, committed);
    let after = reconciled_trace(call, selector, calculated, committed);
    law_replacement_is_complete(call, selector, calculated, committed);
    assert(events_within(after) == events_within(replaced));
    law_every_fee_event_is_counted(call, selector, committed);
    law_every_fee_event_is_counted(call, selector, calculated);
    law_every_fee_event_is_counted(replaced, selector, committed);
    law_every_fee_event_is_counted(replaced, selector, calculated);
}

/// A call is read with its calldata, its events and the calls below it as they are, in their order.
pub proof fn law_calls_are_read_as_they_are(call_info: CallInfo)
    ensures
        ({
            let read = call_info@;
            &&& read.calldata.len() == call_info.calldata@.len()
            &&& forall|k: int|
                0 <= k < read.calldata.len() ==> #[trigger] read.calldata[k]
                    == call_info.calldata@[k]@
            &&& read.events.len() == call_info.events@.len()
            &&& forall|i: int|
                0 <= i < read.events.len() ==> {
                    let event = #[trigger] read.events[i];
                    let source = call_info.events@[i];
                    &&& event.order == source.order
                    &&& event.keys.len() == source.event.keys@.len()
                    &&& event.data.len() == source.event.data@.len()
                    &&& forall|k: int|
                        0 <= k < event.keys.len() ==> #[trigger] event.keys[k]
                            == source.event.keys@[k]@
                    &&& forall|k: int|
                        0 <= k < event.data.len() ==> #[trigger] event.data[k]
                            == source.event.data@[k]@
                }
            &&& read.inner_calls.len() == call_info.inner_calls@.len()
            &&& forall|i: int|
                0 <= i < read.inner_calls.len() ==> #[trigger] read.inner_calls[i]
                    == call_info.inner_calls@[i]@
        }),
{
}

} // verus!

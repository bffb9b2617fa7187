//! The execution trace of a fee transfer.
use vstd::prelude::*;
use vstd::string::StringExecFns;

use crate::felt::{
    felt_determined_by_view, felt_hex, selector_from_name, transfer_event_name, transfer_selector,
    values, Felt,
};
use crate::receipt::Fee;
use crate::sequences::lemma_filter_take_next;
use crate::text::{decimal, decimal_text, hexadecimal, reasoned};

verus! {

/// The content of an event: its keys and its data.
#[derive(Debug, PartialEq, Eq)]
pub struct EventContent {
    pub keys: Vec<Felt>,
    pub data: Vec<Felt>,
}

/// An event in the order in which a call emitted it.
#[derive(Debug, PartialEq, Eq)]
pub struct OrderedEvent {
    pub order: usize,
    pub event: EventContent,
}

/// What a call's trace records of the calldata, the events and the inner calls.
#[derive(Debug, PartialEq, Eq)]
pub struct CallInfo {
    pub calldata: Vec<Felt>,
    pub events: Vec<OrderedEvent>,
    pub inner_calls: Vec<CallInfo>,
}

/// The model of an event.
pub struct EventModel {
    pub order: int,
    pub keys: Seq<nat>,
    pub data: Seq<nat>,
}

/// The model of a call.
pub struct CallModel {
    pub calldata: Seq<nat>,
    pub events: Seq<EventModel>,
    pub inner_calls: Seq<CallModel>,
}

impl View for OrderedEvent {
    type V = EventModel;

    open spec fn view(&self) -> EventModel {
        EventModel {
            order: self.order as int,
            keys: values(self.event.keys@),
            data: values(self.event.data@),
        }
    }
}

impl CallInfo {
    pub open spec fn model(self) -> CallModel
        decreases self,
    {
        CallModel {
            calldata: values(self.calldata@),
            events: self.events@.map_values(|event: OrderedEvent| event@),
            inner_calls: Seq::new(
                self.inner_calls@.len(),
                |i: int|
                    if 0 <= i < self.inner_calls@.len() {
                        self.inner_calls@[i].model()
                    } else {
                        arbitrary()
                    },
            ),
        }
    }
}

impl View for CallInfo {
    type V = CallModel;

    open spec fn view(&self) -> CallModel {
        self.model()
    }
}

/// Whether `event` is a transfer event with this selector of exactly this fee.
pub open spec fn carries_fee(event: EventModel, selector: nat, fee: nat) -> bool {
    &&& event.keys == seq![selector]
    &&& event.data.len() == 4
    &&& event.data[2] == fee
    &&& event.data[3] == 0
}

/// `event` with `calculated` replaced by `committed`, where it carries that fee.
pub open spec fn replace_in_event(
    event: EventModel,
    selector: nat,
    calculated: nat,
    committed: nat,
) -> EventModel {
    if carries_fee(event, selector, calculated) {
        EventModel { data: event.data.update(2, committed), ..event }
    } else {
        event
    }
}

/// `call` with `calculated` replaced by `committed` in every event of it and of the calls below
/// it that carries that fee.
pub open spec fn replace_in_call(
    call: CallModel,
    selector: nat,
    calculated: nat,
    committed: nat,
) -> CallModel
    decreases call,
{
    CallModel {
        calldata: call.calldata,
        events: call.events.map_values(
            |event: EventModel| replace_in_event(event, selector, calculated, committed),
        ),
        inner_calls: Seq::new(
            call.inner_calls.len(),
            |i: int|
                if 0 <= i < call.inner_calls.len() {
                    replace_in_call(call.inner_calls[i], selector, calculated, committed)
                } else {
                    arbitrary()
                },
        ),
    }
}

/// The events that carry this fee, as a predicate.
pub open spec fn fee_carrier(selector: nat, fee: nat) -> spec_fn(EventModel) -> bool {
    |event: EventModel| carries_fee(event, selector, fee)
}

/// How many events of `call` and of the calls below it carry this fee.
pub open spec fn fee_event_count(call: CallModel, selector: nat, fee: nat) -> nat
    decreases call,
{
    call.events.filter(fee_carrier(selector, fee)).len() + fee_event_count_in(
        call.inner_calls,
        selector,
        fee,
    )
}

/// How many events of `calls` and of the calls below them carry this fee.
pub open spec fn fee_event_count_in(calls: Seq<CallModel>, selector: nat, fee: nat) -> nat
    decreases calls,
{
    if calls.len() == 0 {
        0
    } else {
        fee_event_count_in(calls.drop_last(), selector, fee) + fee_event_count(
            calls.last(),
            selector,
            fee,
        )
    }
}

/// `count`, or the largest `usize` where it is more than that.
pub open spec fn saturated(count: nat) -> nat {
    if count <= usize::MAX {
        count
    } else {
        usize::MAX as nat
    }
}

/// Replaces the fee in one event, and tells whether the event carried it.
fn replace_fee_in_event(
    event: &mut OrderedEvent,
    transfer_event_selector: Felt,
    calculated_fee: Felt,
    committed_fee: Felt,
) -> (replaced: bool)
    ensures
        final(event)@ == replace_in_event(
            old(event)@,
            transfer_event_selector@,
            calculated_fee@,
            committed_fee@,
        ),
        replaced == carries_fee(old(event)@, transfer_event_selector@, calculated_fee@),
{
    broadcast use felt_determined_by_view;

    let ghost before = event@;
    let zero = Felt::zero();
    let keys = &event.event.keys;
    let data = &event.event.data;
    if keys.len() == 1 && keys[0] == transfer_event_selector && data.len() == 4 && data[2]
        == calculated_fee && data[3] == zero {
        assert(before.keys =~= seq![transfer_event_selector@]);
        event.event.data[2] = committed_fee;
        assert(event@.data =~= before.data.update(2, committed_fee@));
        true
    } else {
        assert(before.keys.len() == 1 ==> before.keys[0] == keys@[0]@);
        false
    }
}

/// Replaces `calculated_fee` by `committed_fee` in every transfer event of the call and of the
/// calls below it, and counts the events that carried it, up to the largest `usize`.
pub fn replace_fee_in_transfer_events(
    call_info: &mut CallInfo,
    transfer_event_selector: Felt,
    calculated_fee: Felt,
    committed_fee: Felt,
) -> (replaced: usize)
    ensures
        final(call_info)@ == replace_in_call(
            old(call_info)@,
            transfer_event_selector@,
            calculated_fee@,
            committed_fee@,
        ),
        replaced == saturated(
            fee_event_count(old(call_info)@, transfer_event_selector@, calculated_fee@),
        ),
    decreases *old(call_info),
{
    let ghost before = call_info@;
    let ghost pred = fee_carrier(transfer_event_selector@, calculated_fee@);
    let ghost old_events = call_info.events@;
    let ghost old_calls = call_info.inner_calls@;
    let mut replaced: usize = 0;
    let mut i: usize = 0;
    assert(before.events.take(0).filter(pred).len() == 0) by {
        before.events.take(0).lemma_filter_len(pred);
    }
    while i < call_info.events.len()
        invariant
            i <= call_info.events@.len() == old_events.len() == before.events.len(),
            values(call_info.calldata@) == before.calldata,
            call_info.inner_calls@ == old_calls,
            forall|j: int|
                0 <= j < old_events.len() ==> before.events[j] == (#[trigger] old_events[j])@,
            forall|j: int|
                i <= j < old_events.len() ==> #[trigger] call_info.events@[j] == old_events[j],
            forall|j: int|
                0 <= j < i ==> (#[trigger] call_info.events@[j])@ == replace_in_event(
                    before.events[j],
                    transfer_event_selector@,
                    calculated_fee@,
                    committed_fee@,
                ),
            replaced == before.events.take(i as int).filter(pred).len(),
            replaced <= i,
            pred == fee_carrier(transfer_event_selector@, calculated_fee@),
        decreases call_info.events@.len() - i,
    {
        proof {
            lemma_filter_take_next(before.events, pred, i as int);
        }
        if replace_fee_in_event(
            &mut call_info.events[i],
            transfer_event_selector,
            calculated_fee,
            committed_fee,
        ) {
            replaced += 1;
        }
        i += 1;
    }
    assert(before.events.take(before.events.len() as int) =~= before.events);
    let ghost events_after = call_info.events@;
    let mut k: usize = 0;
    while k < call_info.inner_calls.len()
        invariant
            k <= call_info.inner_calls@.len() == old_calls.len() == before.inner_calls.len(),
            values(call_info.calldata@) == before.calldata,
            call_info.events@ == events_after,
            forall|j: int|
                0 <= j < old_calls.len() ==> before.inner_calls[j] == (#[trigger] old_calls[j])@,
            forall|j: int|
                k <= j < old_calls.len() ==> #[trigger] call_info.inner_calls@[j] == old_calls[j],
            forall|j: int|
                0 <= j < k ==> (#[trigger] call_info.inner_calls@[j])@ == replace_in_call(
                    before.inner_calls[j],
                    transfer_event_selector@,
                    calculated_fee@,
                    committed_fee@,
                ),
            old_calls == old(call_info).inner_calls@,
            replaced == saturated(
                before.events.filter(pred).len() + fee_event_count_in(
                    before.inner_calls.take(k as int),
                    transfer_event_selector@,
                    calculated_fee@,
                ),
            ),
        decreases call_info.inner_calls@.len() - k,
    {
        proof {
            assert(before.inner_calls.take(k + 1).drop_last() =~= before.inner_calls.take(
                k as int,
            ));
        }
        let inner_replaced = replace_fee_in_transfer_events(
            &mut call_info.inner_calls[k],
            transfer_event_selector,
            calculated_fee,
            committed_fee,
        );
        replaced = replaced.saturating_add(inner_replaced);
        k += 1;
    }
    proof {
        assert(before.inner_calls.take(before.inner_calls.len() as int) =~= before.inner_calls);
        let after = replace_in_call(
            before,
            transfer_event_selector@,
            calculated_fee@,
            committed_fee@,
        );
        assert(call_info@.events =~= after.events);
        assert(call_info@.inner_calls =~= after.inner_calls);
    }
    replaced
}

/// Whether the calldata of a transfer moves exactly `fee`.
pub open spec fn calldata_moves(calldata: Seq<nat>, fee: nat) -> bool {
    &&& calldata.len() == 3
    &&& calldata[1] == fee
    &&& calldata[2] == 0
}

/// Why the calldata of a transfer cannot be reconciled.
pub open spec fn calldata_reason(calldata: Seq<nat>, calculated: nat) -> Seq<char> {
    if calldata.len() != 3 {
        "fee-transfer calldata has "@ + decimal(calldata.len()) + " fields, expected 3"@
    } else {
        "fee-transfer calldata does not contain the calculated fee "@ + decimal(calculated)
            + "; got ["@ + hexadecimal(calldata[1]) + ", "@ + hexadecimal(calldata[2]) + "]"@
    }
}

/// Why a trace with `count` events of the calculated fee cannot be reconciled.
pub open spec fn event_count_reason(count: nat, calculated: nat) -> Seq<char> {
    "fee-transfer trace contained "@ + decimal(count) + " events with calculated fee "@ + decimal(
        calculated,
    ) + "; expected exactly 1"@
}

/// The trace of a transfer after reconciliation: where its calldata moves the calculated fee,
/// calldata and events move the committed fee instead; otherwise nothing changes.
pub open spec fn reconciled_trace(
    call: CallModel,
    selector: nat,
    calculated: nat,
    committed: nat,
) -> CallModel {
    if calldata_moves(call.calldata, calculated) {
        CallModel {
            calldata: call.calldata.update(1, committed),
            ..replace_in_call(call, selector, calculated, committed)
        }
    } else {
        call
    }
}

/// Whether the trace of a transfer can be reconciled: its calldata moves the calculated fee, and
/// exactly one of its events does.
pub open spec fn trace_outcome(call: CallModel, selector: nat, calculated: nat) -> Result<
    (),
    Seq<char>,
> {
    let count = fee_event_count(call, selector, calculated);
    if !calldata_moves(call.calldata, calculated) {
        Err(calldata_reason(call.calldata, calculated))
    } else if count != 1 {
        Err(event_count_reason(saturated(count), calculated))
    } else {
        Ok(())
    }
}

/// Reconciles the trace of a fee transfer, whose events have this selector, with the committed
/// fee.
pub fn replace_fee_in_trace(
    call_info: &mut CallInfo,
    transfer_event_selector: Felt,
    calculated_fee: Fee,
    committed_fee: Fee,
) -> (res: Result<(), String>)
    ensures
        final(call_info)@ == reconciled_trace(
            old(call_info)@,
            transfer_event_selector@,
            calculated_fee.0 as nat,
            committed_fee.0 as nat,
        ),
        reasoned(res) == trace_outcome(
            old(call_info)@,
            transfer_event_selector@,
            calculated_fee.0 as nat,
        ),
{
    broadcast use felt_determined_by_view;

    let ghost before = call_info@;
    if call_info.calldata.len() != 3 {
        return Err(
            String::from_str("fee-transfer calldata has ").concat(
                decimal_text(call_info.calldata.len() as u128).as_str(),
            ).concat(" fields, expected 3"),
        );
    }
    let calculated = Felt::from_u128(calculated_fee.0);
    let committed = Felt::from_u128(committed_fee.0);
    let zero = Felt::zero();
    let amount = call_info.calldata[1];
    let amount_high = call_info.calldata[2];
    if amount != calculated || amount_high != zero {
        return Err(
            String::from_str("fee-transfer calldata does not contain the calculated fee ").concat(
                decimal_text(calculated_fee.0).as_str(),
            ).concat("; got [").concat(felt_hex(&amount).as_str()).concat(", ").concat(
                felt_hex(&amount_high).as_str(),
            ).concat("]"),
        );
    }
    call_info.calldata[1] = committed;
    let ghost updated = call_info@;
    assert(updated.calldata =~= before.calldata.update(1, committed@));

    let replaced_events = replace_fee_in_transfer_events(
        call_info,
        transfer_event_selector,
        calculated,
        committed,
    );
    if replaced_events != 1 {
        return Err(
            String::from_str("fee-transfer trace contained ").concat(
                decimal_text(replaced_events as u128).as_str(),
            ).concat(" events with calculated fee ").concat(
                decimal_text(calculated_fee.0).as_str(),
            ).concat("; expected exactly 1"),
        );
    }
    Ok(())
}

/// Reconciles the trace of a fee transfer with the committed fee.
pub fn replace_fee_in_transfer_trace(
    call_info: &mut CallInfo,
    calculated_fee: Fee,
    committed_fee: Fee,
) -> (res: Result<(), String>)
    ensures
        final(call_info)@ == reconciled_trace(
            old(call_info)@,
            transfer_selector(),
            calculated_fee.0 as nat,
            committed_fee.0 as nat,
        ),
        reasoned(res) == trace_outcome(
            old(call_info)@,
            transfer_selector(),
            calculated_fee.0 as nat,
        ),
{
    let transfer_event_selector = selector_from_name(transfer_event_name());
    replace_fee_in_trace(call_info, transfer_event_selector, calculated_fee, committed_fee)
}

} // verus!

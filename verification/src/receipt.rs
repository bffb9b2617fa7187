//! What a committed receipt says of a transaction, and the charge that its events record.
use vstd::prelude::*;
use vstd::string::StringExecFns;

use crate::balance::{felt_limb_to_u128, limb_value};
use crate::felt::{
    felt_determined_by_view, felt_hex, selector_from_name, transfer_event_name, transfer_selector,
    values, ContractAddress, Felt,
};
use crate::sequences::{lemma_filter_one, lemma_filter_take_next, lemma_only_index};
use crate::text::{decimal, decimal_text, hexadecimal, reasoned};

verus! {

/// An amount of the fee token.
#[derive(Clone, Copy, Debug, PartialEq, Eq, Structural)]
pub struct Fee(pub u128);

/// The gas that a transaction consumed.
#[derive(Clone, Copy, Debug, PartialEq, Eq, Structural)]
pub struct GasVector {
    pub l1_gas: u64,
    pub l1_data_gas: u64,
    pub l2_gas: u64,
}

/// An event of a receipt, with the contract that emitted it.
#[derive(Debug, PartialEq, Eq)]
pub struct Event {
    pub from_address: Felt,
    pub keys: Vec<Felt>,
    pub data: Vec<Felt>,
}

/// The model of a receipt's event.
pub struct EmittedModel {
    pub from_address: nat,
    pub keys: Seq<nat>,
    pub data: Seq<nat>,
}

impl View for Event {
    type V = EmittedModel;

    open spec fn view(&self) -> EmittedModel {
        EmittedModel {
            from_address: self.from_address@,
            keys: values(self.keys@),
            data: values(self.data@),
        }
    }
}

/// The models of a receipt's events.
pub open spec fn emitted(events: Seq<Event>) -> Seq<EmittedModel> {
    events.map_values(|event: Event| event@)
}

/// The events by which the fee token moves an amount, with a high half of zero, from the sender
/// to the sequencer.
pub open spec fn fee_transfer(
    selector: nat,
    fee_token: nat,
    sender: nat,
    sequencer: nat,
) -> spec_fn(EmittedModel) -> bool {
    |event: EmittedModel|
        {
            &&& event.from_address == fee_token
            &&& event.keys == seq![selector]
            &&& event.data.len() == 4
            &&& event.data[0] == sender
            &&& event.data[1] == sequencer
            &&& event.data[3] == 0
        }
}

/// Why a receipt with `count` fee transfers has no charge.
pub open spec fn transfer_count_reason(count: nat, sender: nat, sequencer: nat) -> Seq<char> {
    "receipt contained "@ + decimal(count) + " matching fee-transfer events from "@ + hexadecimal(
        sender,
    ) + " to "@ + hexadecimal(sequencer) + "; expected exactly 1"@
}

/// The charge that a receipt's events record: the amount of the one fee transfer among them.
pub open spec fn recorded_charge(
    events: Seq<EmittedModel>,
    selector: nat,
    fee_token: nat,
    sender: nat,
    sequencer: nat,
) -> Result<Fee, Seq<char>> {
    let transfers = events.filter(fee_transfer(selector, fee_token, sender, sequencer));
    if transfers.len() != 1 {
        Err(transfer_count_reason(transfers.len(), sender, sequencer))
    } else {
        match limb_value(transfers[0].data[2]) {
            Ok(amount) => Ok(Fee(amount)),
            Err(reason) => Err(reason),
        }
    }
}

/// Whether the event is a fee transfer with this selector between these addresses.
fn is_fee_transfer(
    event: &Event,
    transfer_event_selector: Felt,
    fee_token_address: Felt,
    sender_address: Felt,
    sequencer_address: Felt,
) -> (res: bool)
    ensures
        res == fee_transfer(
            transfer_event_selector@,
            fee_token_address@,
            sender_address@,
            sequencer_address@,
        )(event@),
{
    broadcast use felt_determined_by_view;

    let zero = Felt::zero();
    let res = event.from_address == fee_token_address && event.keys.len() == 1 && event.keys[0]
        == transfer_event_selector && event.data.len() == 4 && event.data[0] == sender_address
        && event.data[1] == sequencer_address && event.data[3] == zero;
    proof {
        if event@.keys.len() == 1 {
            assert(event@.keys[0] == event.keys@[0]@);
            assert(event.keys@[0]@ == transfer_event_selector@ ==> event@.keys
                =~= seq![transfer_event_selector@]);
        }
    }
    res
}

/// The amount of the one transfer event, with this selector, by which the fee token moved the fee
/// from the sender to the sequencer.
pub fn fee_transfer_amount(
    events: &[Event],
    transfer_event_selector: Felt,
    fee_token_address: ContractAddress,
    sender_address: ContractAddress,
    sequencer_address: ContractAddress,
) -> (res: Result<Fee, String>)
    ensures
        reasoned(res) == recorded_charge(
            emitted(events@),
            transfer_event_selector@,
            fee_token_address@,
            sender_address@,
            sequencer_address@,
        ),
{
    let fee_token_key = fee_token_address.key();
    let sender_key = sender_address.key();
    let sequencer_key = sequencer_address.key();
    let ghost models = emitted(events@);
    let ghost pred = fee_transfer(
        transfer_event_selector@,
        fee_token_key@,
        sender_key@,
        sequencer_key@,
    );
    let mut count: usize = 0;
    let mut found: usize = 0;
    let mut i: usize = 0;
    assert(models.take(0).filter(pred).len() == 0) by {
        models.take(0).lemma_filter_len(pred);
    }
    while i < events.len()
        invariant
            i <= events@.len() == models.len(),
            models == emitted(events@),
            pred == fee_transfer(
                transfer_event_selector@,
                fee_token_key@,
                sender_key@,
                sequencer_key@,
            ),
            count == models.take(i as int).filter(pred).len(),
            count <= i,
            count >= 1 ==> found < i && pred(models[found as int]) && models.take(
                i as int,
            ).filter(pred).last() == models[found as int],
        decreases events@.len() - i,
    {
        proof {
            lemma_filter_take_next(models, pred, i as int);
        }
        if is_fee_transfer(
            &events[i],
            transfer_event_selector,
            fee_token_key,
            sender_key,
            sequencer_key,
        ) {
            count += 1;
            found = i;
        }
        i += 1;
    }
    assert(models.take(models.len() as int) =~= models);
    if count != 1 {
        let reason = String::from_str("receipt contained ").concat(
            decimal_text(count as u128).as_str(),
        ).concat(" matching fee-transfer events from ").concat(felt_hex(&sender_key).as_str()).concat(
            " to ",
        ).concat(felt_hex(&sequencer_key).as_str()).concat("; expected exactly 1");
        return Err(reason);
    }
    assert(models[found as int].data[2] == events@[found as int].data@[2]@);
    match felt_limb_to_u128(events[found].data[2]) {
        Ok(amount) => Ok(Fee(amount)),
        Err(reason) => Err(reason),
    }
}

/// The fee that was in fact charged, as the one matching transfer event of the receipt says.
pub fn committed_fee_transfer_amount(
    events: &[Event],
    fee_token_address: ContractAddress,
    sender_address: ContractAddress,
    sequencer_address: ContractAddress,
) -> (res: Result<Fee, String>)
    ensures
        reasoned(res) == recorded_charge(
            emitted(events@),
            transfer_selector(),
            fee_token_address@,
            sender_address@,
            sequencer_address@,
        ),
{
    let transfer_event_selector = selector_from_name(transfer_event_name());
    fee_transfer_amount(
        events,
        transfer_event_selector,
        fee_token_address,
        sender_address,
        sequencer_address,
    )
}

/// An event that is no fee transfer changes nothing about the recorded charge, wherever it stands.
pub proof fn law_other_events_do_not_count(
    before: Seq<EmittedModel>,
    event: EmittedModel,
    after: Seq<EmittedModel>,
    selector: nat,
    fee_token: nat,
    sender: nat,
    sequencer: nat,
)
    requires
        !fee_transfer(selector, fee_token, sender, sequencer)(event),
    ensures
        recorded_charge(before.push(event) + after, selector, fee_token, sender, sequencer)
            == recorded_charge(before + after, selector, fee_token, sender, sequencer),
{
    let pred = fee_transfer(selector, fee_token, sender, sequencer);
    Seq::filter_distributes_over_add(before.push(event), after, pred);
    Seq::filter_distributes_over_add(before, after, pred);
    reveal(Seq::filter);
    assert(before.push(event).drop_last() =~= before);
}

/// A second fee transfer leaves the receipt without a charge.
pub proof fn law_second_transfer_is_refused(
    events: Seq<EmittedModel>,
    event: EmittedModel,
    selector: nat,
    fee_token: nat,
    sender: nat,
    sequencer: nat,
)
    requires
        recorded_charge(events, selector, fee_token, sender, sequencer) is Ok,
        fee_transfer(selector, fee_token, sender, sequencer)(event),
    ensures
        recorded_charge(events.push(event), selector, fee_token, sender, sequencer) == Err::<
            Fee,
            Seq<char>,
        >(transfer_count_reason(2, sender, sequencer)),
{
    reveal(Seq::filter);
    assert(events.push(event).drop_last() =~= events);
}

/// Whether the fee token says by this event that it moved an amount, with a high half of zero, from
/// the sender to the sequencer.
pub open spec fn says_fee_was_moved(
    event: EmittedModel,
    selector: nat,
    fee_token: nat,
    sender: nat,
    sequencer: nat,
) -> bool {
    &&& event.from_address == fee_token
    &&& event.keys.len() == 1
    &&& event.keys[0] == selector
    &&& event.data.len() == 4
    &&& event.data[0] == sender
    &&& event.data[1] == sequencer
    &&& event.data[3] == 0
}

proof fn lemma_fee_transfer_by_fields(
    event: EmittedModel,
    selector: nat,
    fee_token: nat,
    sender: nat,
    sequencer: nat,
)
    ensures
        fee_transfer(selector, fee_token, sender, sequencer)(event) <==> says_fee_was_moved(
            event,
            selector,
            fee_token,
            sender,
            sequencer,
        ),
{
    if event.keys.len() == 1 && event.keys[0] == selector {
        assert(event.keys =~= seq![selector]);
    }
}

/// Where one event alone says that the fee was moved, the amount that it names is the charge, unless
/// it has more than 128 bits.
pub proof fn law_one_transfer_is_the_charge(
    events: Seq<EmittedModel>,
    selector: nat,
    fee_token: nat,
    sender: nat,
    sequencer: nat,
    i: int,
)
    requires
        0 <= i < events.len(),
        forall|j: int|
            0 <= j < events.len() ==> (says_fee_was_moved(
                #[trigger] events[j],
                selector,
                fee_token,
                sender,
                sequencer,
            ) <==> j == i),
    ensures
        match recorded_charge(events, selector, fee_token, sender, sequencer) {
            Ok(fee) => fee.0 as nat == events[i].data[2],
            Err(reason) => events[i].data[2] > u128::MAX && reason
                == "fee-token balance limb exceeds u128: "@ + hexadecimal(events[i].data[2]),
        },
{
    let pred = fee_transfer(selector, fee_token, sender, sequencer);
    assert forall|j: int| 0 <= j < events.len() implies (pred(#[trigger] events[j]) <==> j
        == i) by {
        lemma_fee_transfer_by_fields(events[j], selector, fee_token, sender, sequencer);
    }
    lemma_filter_one(events, pred, i);
}

/// A charge that is recorded is the amount that one event names, and no other event says that the
/// fee was moved.
pub proof fn law_charge_is_one_transfer(
    events: Seq<EmittedModel>,
    selector: nat,
    fee_token: nat,
    sender: nat,
    sequencer: nat,
) -> (i: int)
    requires
        recorded_charge(events, selector, fee_token, sender, sequencer) is Ok,
    ensures
        0 <= i < events.len(),
        recorded_charge(events, selector, fee_token, sender, sequencer)->Ok_0.0 as nat
            == events[i].data[2],
        forall|j: int|
            0 <= j < events.len() ==> (says_fee_was_moved(
                #[trigger] events[j],
                selector,
                fee_token,
                sender,
                sequencer,
            ) <==> j == i),
{
    let pred = fee_transfer(selector, fee_token, sender, sequencer);
    let i = lemma_only_index(events, pred);
    assert forall|j: int| 0 <= j < events.len() implies (says_fee_was_moved(
        #[trigger] events[j],
        selector,
        fee_token,
        sender,
        sequencer,
    ) <==> j == i) by {
        lemma_fee_transfer_by_fields(events[j], selector, fee_token, sender, sequencer);
    }
    i
}

/// Where no event says that the fee was moved, or more than one does, there is no charge, and the
/// reason tells how many do.
pub proof fn law_other_than_one_transfer_is_refused(
    events: Seq<EmittedModel>,
    selector: nat,
    fee_token: nat,
    sender: nat,
    sequencer: nat,
)
    ensures
        ({
            let count = events.filter(
                |event: EmittedModel|
                    says_fee_was_moved(event, selector, fee_token, sender, sequencer),
            ).len();
            count != 1 ==> recorded_charge(events, selector, fee_token, sender, sequencer) == Err::<
                Fee,
                Seq<char>,
            >(
                "receipt contained "@ + decimal(count) + " matching fee-transfer events from "@
                    + hexadecimal(sender) + " to "@ + hexadecimal(sequencer)
                    + "; expected exactly 1"@,
            )
        }),
{
    let pred = fee_transfer(selector, fee_token, sender, sequencer);
    let by_fields = |event: EmittedModel|
        says_fee_was_moved(event, selector, fee_token, sender, sequencer);
    assert forall|event: EmittedModel| #[trigger] pred(event) == by_fields(event) by {
        lemma_fee_transfer_by_fields(event, selector, fee_token, sender, sequencer);
    }
    assert(pred =~= by_fields);
}

/// An event is read with its sender, its keys and its data as they are, and events in their order.
pub proof fn law_events_are_read_as_they_are(events: Seq<Event>)
    ensures
        emitted(events).len() == events.len(),
        forall|i: int|
            0 <= i < events.len() ==> {
                let read = #[trigger] emitted(events)[i];
                &&& read.from_address == events[i].from_address@
                &&& read.keys.len() == events[i].keys@.len()
                &&& read.data.len() == events[i].data@.len()
                &&& forall|k: int|
                    0 <= k < read.keys.len() ==> #[trigger] read.keys[k] == events[i].keys@[k]@
                &&& forall|k: int|
                    0 <= k < read.data.len() ==> #[trigger] read.data[k] == events[i].data@[k]@
            },
{
}

} // verus!

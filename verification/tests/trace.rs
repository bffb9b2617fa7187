use committed_fee::felt::Felt;
use committed_fee::receipt::Fee;
use committed_fee::trace::{
    replace_fee_in_trace, replace_fee_in_transfer_events, replace_fee_in_transfer_trace, CallInfo,
    EventContent, OrderedEvent,
};
use starknet_api::abi::abi_utils::selector_from_name;
use starknet_api::transaction::constants::TRANSFER_EVENT_NAME;

fn felt(value: u128) -> Felt {
    Felt::from_u128(value)
}

fn transfer_selector() -> Felt {
    let bytes = selector_from_name(TRANSFER_EVENT_NAME).0.to_bytes_be();
    Felt::from_parts(
        u128::from_be_bytes(bytes[..16].try_into().unwrap()),
        u128::from_be_bytes(bytes[16..].try_into().unwrap()),
    )
    .unwrap()
}

fn event(order: usize, key: Felt, data: Vec<u128>) -> OrderedEvent {
    OrderedEvent {
        order,
        event: EventContent { keys: vec![key], data: data.into_iter().map(felt).collect() },
    }
}

fn call(calldata: Vec<u128>, events: Vec<OrderedEvent>, inner_calls: Vec<CallInfo>) -> CallInfo {
    CallInfo { calldata: calldata.into_iter().map(felt).collect(), events, inner_calls }
}

#[test]
fn replaces_fee_event_in_nested_transfer_call() {
    let calculated_fee = felt(17);
    let committed_fee = felt(11);
    let fee_event = OrderedEvent {
        order: 1,
        event: EventContent {
            keys: vec![transfer_selector()],
            data: vec![felt(1), felt(2), calculated_fee, Felt::zero()],
        },
    };
    let mut call_info = call(vec![], vec![], vec![call(vec![], vec![], vec![])]);
    call_info.inner_calls[0].events.push(fee_event);

    assert_eq!(
        replace_fee_in_transfer_events(
            &mut call_info,
            transfer_selector(),
            calculated_fee,
            committed_fee,
        ),
        1
    );
    assert_eq!(call_info.inner_calls[0].events[0].event.data[2], committed_fee);
}

#[test]
fn counts_and_replaces_on_every_level() {
    let key = transfer_selector();
    let transfer = |order: usize| event(order, key, vec![1, 2, 17, 0]);
    let inner = call(vec![4], vec![transfer(2)], vec![call(vec![], vec![transfer(3)], vec![])]);
    let mut trace = call(vec![], vec![transfer(0), transfer(1)], vec![inner]);
    assert_eq!(replace_fee_in_transfer_events(&mut trace, key, felt(17), felt(11)), 4);
    let replaced = |order: usize| event(order, key, vec![1, 2, 11, 0]);
    let inner = call(vec![4], vec![replaced(2)], vec![call(vec![], vec![replaced(3)], vec![])]);
    assert_eq!(trace, call(vec![], vec![replaced(0), replaced(1)], vec![inner]));
    assert_eq!(replace_fee_in_transfer_events(&mut trace, key, felt(17), felt(11)), 0);
}

#[test]
fn keeps_events_that_do_not_carry_the_fee() {
    let key = transfer_selector();
    let others = || {
        vec![
            event(0, felt(5), vec![1, 2, 17, 0]),
            event(1, key, vec![1, 2, 18, 0]),
            event(2, key, vec![1, 2, 17, 1]),
            event(3, key, vec![1, 2, 17]),
            event(4, key, vec![1, 2, 17, 0, 0]),
            OrderedEvent {
                order: 5,
                event: EventContent {
                    keys: vec![key, key],
                    data: vec![felt(1), felt(2), felt(17), felt(0)],
                },
            },
        ]
    };
    let mut trace = call(vec![], others(), vec![]);
    assert_eq!(replace_fee_in_transfer_events(&mut trace, key, felt(17), felt(11)), 0);
    assert_eq!(trace, call(vec![], others(), vec![]));
}

#[test]
fn replacing_back_gives_the_trace_back() {
    let key = transfer_selector();
    let trace = || {
        call(
            vec![9],
            vec![event(0, key, vec![1, 2, 17, 0]), event(1, key, vec![1, 2, 3, 0])],
            vec![call(vec![], vec![event(2, key, vec![5, 6, 17, 0])], vec![])],
        )
    };
    let mut changed = trace();
    assert_eq!(replace_fee_in_transfer_events(&mut changed, key, felt(17), felt(11)), 2);
    assert_ne!(changed, trace());
    assert_eq!(replace_fee_in_transfer_events(&mut changed, key, felt(11), felt(17)), 2);
    assert_eq!(changed, trace());
}

#[test]
fn replacing_a_fee_by_itself_changes_nothing() {
    let key = transfer_selector();
    let trace = || call(vec![], vec![event(0, key, vec![1, 2, 17, 0])], vec![]);
    let mut same = trace();
    assert_eq!(replace_fee_in_transfer_events(&mut same, key, felt(17), felt(17)), 1);
    assert_eq!(same, trace());
}

#[test]
fn reconciles_calldata_and_event_of_a_transfer() {
    let key = transfer_selector();
    let mut trace = call(vec![7, 17, 0], vec![event(0, key, vec![5, 7, 17, 0])], vec![]);
    assert_eq!(replace_fee_in_transfer_trace(&mut trace, Fee(17), Fee(11)), Ok(()));
    assert_eq!(trace, call(vec![7, 11, 0], vec![event(0, key, vec![5, 7, 11, 0])], vec![]));
}

#[test]
fn reconciles_a_trace_with_a_given_selector() {
    let mut trace = call(vec![7, 17, 0], vec![event(0, felt(8), vec![5, 7, 17, 0])], vec![]);
    assert_eq!(replace_fee_in_trace(&mut trace, felt(8), Fee(17), Fee(11)), Ok(()));
    assert_eq!(trace, call(vec![7, 11, 0], vec![event(0, felt(8), vec![5, 7, 11, 0])], vec![]));
}

#[test]
fn refuses_calldata_of_another_length() {
    let mut trace = call(vec![7, 17], vec![], vec![]);
    assert_eq!(
        replace_fee_in_transfer_trace(&mut trace, Fee(17), Fee(11)),
        Err("fee-transfer calldata has 2 fields, expected 3".to_string())
    );
    assert_eq!(trace, call(vec![7, 17], vec![], vec![]));
}

#[test]
fn refuses_calldata_with_another_fee() {
    let mut trace = call(vec![7, 18, 0], vec![], vec![]);
    assert_eq!(
        replace_fee_in_transfer_trace(&mut trace, Fee(17), Fee(11)),
        Err("fee-transfer calldata does not contain the calculated fee 17; got [0x12, 0x0]"
            .to_string())
    );
    let mut trace = call(vec![7, 17, 255], vec![], vec![]);
    assert_eq!(
        replace_fee_in_transfer_trace(&mut trace, Fee(17), Fee(11)),
        Err("fee-transfer calldata does not contain the calculated fee 17; got [0x11, 0xff]"
            .to_string())
    );
}

#[test]
fn refuses_traces_without_exactly_one_fee_event() {
    let key = transfer_selector();
    let mut trace = call(vec![7, 17, 0], vec![], vec![]);
    assert_eq!(
        replace_fee_in_transfer_trace(&mut trace, Fee(17), Fee(11)),
        Err("fee-transfer trace contained 0 events with calculated fee 17; expected exactly 1"
            .to_string())
    );
    let transfer = |order: usize| event(order, key, vec![5, 7, 17, 0]);
    let mut trace = call(vec![7, 17, 0], vec![transfer(0), transfer(1)], vec![]);
    assert_eq!(
        replace_fee_in_transfer_trace(&mut trace, Fee(17), Fee(11)),
        Err("fee-transfer trace contained 2 events with calculated fee 17; expected exactly 1"
            .to_string())
    );
    let replaced = |order: usize| event(order, key, vec![5, 7, 11, 0]);
    assert_eq!(trace, call(vec![7, 11, 0], vec![replaced(0), replaced(1)], vec![]));
}

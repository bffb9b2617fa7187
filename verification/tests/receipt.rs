use committed_fee::felt::{ContractAddress, Felt};
use committed_fee::receipt::{committed_fee_transfer_amount, fee_transfer_amount, Event, Fee};
use starknet_api::abi::abi_utils::selector_from_name;
use starknet_api::transaction::constants::TRANSFER_EVENT_NAME;

fn felt(value: u128) -> Felt {
    Felt::from_u128(value)
}

fn address(value: u128) -> ContractAddress {
    ContractAddress::try_from_felt(felt(value)).unwrap()
}

fn selector() -> Felt {
    let bytes = selector_from_name(TRANSFER_EVENT_NAME).0.to_bytes_be();
    Felt::from_parts(
        u128::from_be_bytes(bytes[..16].try_into().unwrap()),
        u128::from_be_bytes(bytes[16..].try_into().unwrap()),
    )
    .unwrap()
}

fn transfer(from_address: u128, data: Vec<Felt>) -> Event {
    Event { from_address: felt(from_address), keys: vec![selector()], data }
}

#[test]
fn reads_historical_charge_from_receipt_transfer_event() {
    let fee_token = address(3);
    let sender = address(5);
    let sequencer = address(7);
    let charged_fee = felt(11);
    let events = vec![Event {
        from_address: fee_token.key(),
        keys: vec![selector()],
        data: vec![sender.key(), sequencer.key(), charged_fee, Felt::zero()],
    }];

    assert_eq!(
        committed_fee_transfer_amount(&events, fee_token, sender, sequencer).unwrap(),
        Fee(11)
    );
}

#[test]
fn ignores_events_that_are_no_fee_transfer() {
    let events = vec![
        transfer(4, vec![felt(5), felt(7), felt(1), felt(0)]),
        Event {
            from_address: felt(3),
            keys: vec![felt(1)],
            data: vec![felt(5), felt(7), felt(2), felt(0)],
        },
        Event {
            from_address: felt(3),
            keys: vec![selector(), selector()],
            data: vec![felt(5), felt(7), felt(2), felt(0)],
        },
        transfer(3, vec![felt(7), felt(5), felt(3), felt(0)]),
        transfer(3, vec![felt(5), felt(7), felt(4), felt(1)]),
        transfer(3, vec![felt(5), felt(7), felt(9), felt(0)]),
        transfer(3, vec![felt(5), felt(7), felt(5)]),
        transfer(3, vec![felt(5), felt(8), felt(6), felt(0)]),
    ];
    assert_eq!(
        committed_fee_transfer_amount(&events, address(3), address(5), address(7)),
        Ok(Fee(9))
    );
}

#[test]
fn refuses_receipts_without_exactly_one_fee_transfer() {
    assert_eq!(
        committed_fee_transfer_amount(&[], address(3), address(5), address(171)),
        Err("receipt contained 0 matching fee-transfer events from 0x5 to 0xab; expected exactly 1"
            .to_string())
    );
    let events = vec![
        transfer(3, vec![felt(5), felt(7), felt(9), felt(0)]),
        transfer(3, vec![felt(5), felt(7), felt(9), felt(0)]),
    ];
    assert_eq!(
        committed_fee_transfer_amount(&events, address(3), address(5), address(7)),
        Err("receipt contained 2 matching fee-transfer events from 0x5 to 0x7; expected exactly 1"
            .to_string())
    );
}

#[test]
fn refuses_an_amount_beyond_128_bits() {
    let amount = Felt::from_parts(1, 0).unwrap();
    let events = vec![transfer(3, vec![felt(5), felt(7), amount, felt(0)])];
    assert_eq!(
        committed_fee_transfer_amount(&events, address(3), address(5), address(7)),
        Err("fee-token balance limb exceeds u128: 0x100000000000000000000000000000000".to_string())
    );
    let events = vec![transfer(3, vec![felt(5), felt(7), felt(u128::MAX), felt(0)])];
    assert_eq!(
        committed_fee_transfer_amount(&events, address(3), address(5), address(7)),
        Ok(Fee(u128::MAX))
    );
}

#[test]
fn reads_the_charge_with_a_given_selector() {
    let events = vec![Event {
        from_address: felt(3),
        keys: vec![felt(12)],
        data: vec![felt(5), felt(7), felt(11), felt(0)],
    }];
    let of = |key: u128| fee_transfer_amount(&events, felt(key), address(3), address(5), address(7));
    assert_eq!(of(12), Ok(Fee(11)));
    assert!(of(13).is_err());
}

use committed_fee::felt::{ContractAddress, Felt};
use committed_fee::text::decimal_text;

const PRIME_HIGH: u128 = 0x8000000000000110000000000000000;

#[test]
fn felts_are_below_the_prime() {
    assert!(Felt::from_parts(PRIME_HIGH, 0).is_some());
    assert!(Felt::from_parts(PRIME_HIGH, 1).is_none());
    assert!(Felt::from_parts(PRIME_HIGH + 1, 0).is_none());
    assert!(Felt::from_parts(PRIME_HIGH - 1, u128::MAX).is_some());
}

#[test]
fn felts_keep_their_halves() {
    let felt = Felt::from_parts(3, 4).unwrap();
    assert_eq!((felt.high(), felt.low()), (3, 4));
    let felt = Felt::from_u128(u128::MAX);
    assert_eq!((felt.high(), felt.low()), (0, u128::MAX));
    assert_eq!(Felt::zero(), Felt::from_u128(0));
}

#[test]
fn addresses_are_below_their_bound() {
    let largest = Felt::from_parts(0x7ffffffffffffffffffffffffffffff, u128::MAX).unwrap();
    assert_eq!(ContractAddress::try_from_felt(largest).unwrap().key(), largest);
    let bound = Felt::from_parts(0x8000000000000000000000000000000, 0).unwrap();
    assert!(ContractAddress::try_from_felt(bound).is_none());
}

#[test]
fn equal_addresses_have_equal_keys() {
    let address = |value: u128| ContractAddress::try_from_felt(Felt::from_u128(value)).unwrap();
    assert_eq!(address(5), address(5));
    assert_ne!(address(5), address(6));
}

#[test]
fn numbers_are_written_in_decimal() {
    assert_eq!(decimal_text(0), "0");
    assert_eq!(decimal_text(9), "9");
    assert_eq!(decimal_text(10), "10");
    assert_eq!(decimal_text(1234567890), "1234567890");
    assert_eq!(decimal_text(u128::MAX), "340282366920938463463374607431768211455");
}

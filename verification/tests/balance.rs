use std::collections::HashMap;

use blockifier::fee::fee_utils::get_address_balance_keys;
use committed_fee::balance::{
    adjust_balance, adjust_balance_at, adjust_u256_limbs, felt_limb_to_u128,
    reconcile_fee_token_balances, BalanceAdjustment, BalanceReconciliation, BalanceReply,
    BalanceRequest, BalanceStage, BalanceWrites,
};
use committed_fee::felt::{ContractAddress, Felt};
use committed_fee::receipt::Fee;

fn felt(value: u128) -> Felt {
    Felt::from_u128(value)
}

fn address(value: u128) -> ContractAddress {
    ContractAddress::try_from_felt(felt(value)).unwrap()
}

fn chain_keys(owner: u128) -> (Felt, Felt) {
    let (low, high) = get_address_balance_keys(starknet_api::core::ContractAddress::from(owner));
    let convert = |bytes: [u8; 32]| {
        Felt::from_parts(
            u128::from_be_bytes(bytes[..16].try_into().unwrap()),
            u128::from_be_bytes(bytes[16..].try_into().unwrap()),
        )
        .unwrap()
    };
    (convert(low.0.key().to_bytes_be()), convert(high.0.key().to_bytes_be()))
}

struct Storage(HashMap<(u128, u128), Felt>);

impl Storage {
    fn get(&self, key: Felt) -> Felt {
        self.0.get(&(key.high(), key.low())).copied().unwrap_or(Felt::zero())
    }

    fn set(&mut self, key: Felt, value: Felt) {
        self.0.insert((key.high(), key.low()), value);
    }

    fn balance(&self, owner: u128) -> (Felt, Felt) {
        let (low, high) = chain_keys(owner);
        (self.get(low), self.get(high))
    }

    fn with(balances: Vec<(u128, u128, u128)>) -> Storage {
        let mut storage = Storage(HashMap::new());
        for (owner, low, high) in balances {
            let keys = chain_keys(owner);
            storage.set(keys.0, felt(low));
            storage.set(keys.1, felt(high));
        }
        storage
    }

    fn settle(&mut self, mut left: Option<BalanceReconciliation>) -> Result<(), String> {
        while let Some(reconciliation) = left {
            let reply = match reconciliation.request() {
                BalanceRequest::Read { owner } => {
                    BalanceReply::Balance(Ok(self.balance(owner.key().low())))
                }
                BalanceRequest::Write { key, value } => {
                    self.set(key, value);
                    BalanceReply::Written(Ok(()))
                }
            };
            left = reconciliation.resume(reply)?;
        }
        Ok(())
    }
}

#[test]
fn adjusts_u256_limbs_and_rejects_underflow() {
    assert_eq!(adjust_u256_limbs(u128::MAX, 7, 2, true).unwrap(), (1, 8));
    assert_eq!(adjust_u256_limbs(1, 8, 2, false).unwrap(), (u128::MAX, 7));
    assert!(adjust_u256_limbs(0, 0, 1, false).unwrap_err().contains("underflowed"));
}

#[test]
fn rejects_overflow_and_keeps_the_bounds() {
    assert_eq!(
        adjust_u256_limbs(u128::MAX, u128::MAX, 1, true),
        Err("fee-token balance overflowed u256".to_string())
    );
    assert_eq!(
        adjust_u256_limbs(0, 0, 1, false),
        Err("fee-token balance underflowed u256".to_string())
    );
    assert_eq!(
        adjust_u256_limbs(u128::MAX - 1, u128::MAX, 1, true),
        Ok((u128::MAX, u128::MAX))
    );
    assert_eq!(adjust_u256_limbs(5, 0, 5, false), Ok((0, 0)));
    assert_eq!(adjust_u256_limbs(5, 6, 0, false), Ok((5, 6)));
}

#[test]
fn adjustments_undo_each_other() {
    let (low, high) = adjust_u256_limbs(u128::MAX - 3, 41, 1000, true).unwrap();
    assert_eq!((low, high), (996, 42));
    assert_eq!(adjust_u256_limbs(low, high, 1000, false), Ok((u128::MAX - 3, 41)));
}

#[test]
fn reads_limbs_of_128_bits() {
    assert_eq!(felt_limb_to_u128(felt(0)), Ok(0));
    assert_eq!(felt_limb_to_u128(felt(u128::MAX)), Ok(u128::MAX));
    assert_eq!(
        felt_limb_to_u128(Felt::from_parts(0x2a, 0xbeef).unwrap()),
        Err("fee-token balance limb exceeds u128: 0x2a0000000000000000000000000000beef".to_string())
    );
}

#[test]
fn equal_charges_need_no_reconciliation() {
    assert_eq!(reconcile_fee_token_balances(address(5), address(7), Fee(3), Fee(3)), None);
}

#[test]
fn gives_the_difference_back_to_the_sender() {
    let plan = reconcile_fee_token_balances(address(5), address(7), Fee(17), Fee(11)).unwrap();
    assert_eq!(
        plan,
        BalanceReconciliation {
            current: BalanceAdjustment { owner: address(5), amount: 6, increase: true },
            rest: Some(BalanceAdjustment { owner: address(7), amount: 6, increase: false }),
            stage: BalanceStage::Read,
        }
    );
    let plan = reconcile_fee_token_balances(address(5), address(7), Fee(11), Fee(17)).unwrap();
    assert_eq!(
        plan.current,
        BalanceAdjustment { owner: address(5), amount: 6, increase: false }
    );
    assert_eq!(
        plan.rest,
        Some(BalanceAdjustment { owner: address(7), amount: 6, increase: true })
    );
}

#[test]
fn writes_balances_under_the_owner_s_keys() {
    let adjustment = BalanceAdjustment { owner: address(5), amount: 2, increase: true };
    let (low_key, high_key) = chain_keys(5);
    assert_eq!(high_key, Felt::from_parts(low_key.high(), low_key.low() + 1).unwrap());
    assert_eq!(
        adjust_balance(adjustment, Ok((felt(u128::MAX), felt(7)))),
        Ok(BalanceWrites { low_key, low: felt(1), high_key, high: felt(8) })
    );
    assert_eq!(
        adjust_balance_at(adjustment, felt(100), felt(200), Ok((felt(3), felt(7)))),
        Ok(BalanceWrites { low_key: felt(100), low: felt(5), high_key: felt(200), high: felt(7) })
    );
}

#[test]
fn reports_balances_that_cannot_be_adjusted() {
    let adjustment = BalanceAdjustment { owner: address(31), amount: 2, increase: false };
    assert_eq!(
        adjust_balance(adjustment, Err("no storage".to_string())),
        Err("failed to read fee-token balance for ContractAddress(PatriciaKey(0x1f)): no storage"
            .to_string())
    );
    let large = Felt::from_parts(1, 2).unwrap();
    let reason =
        || Err("fee-token balance limb exceeds u128: 0x100000000000000000000000000000002".to_string());
    assert_eq!(adjust_balance(adjustment, Ok((large, felt(0)))), reason());
    assert_eq!(adjust_balance(adjustment, Ok((felt(0), large))), reason());
    assert_eq!(
        adjust_balance(adjustment, Ok((felt(1), felt(0)))),
        Err("fee-token balance underflowed u256".to_string())
    );
}

#[test]
fn reports_writes_that_fail() {
    let plan = reconcile_fee_token_balances(address(5), address(7), Fee(17), Fee(11)).unwrap();
    assert_eq!(plan.request(), BalanceRequest::Read { owner: address(5) });
    let low = plan.resume(BalanceReply::Balance(Ok((felt(1), felt(2))))).unwrap().unwrap();
    let (low_key, high_key) = chain_keys(5);
    assert_eq!(low.request(), BalanceRequest::Write { key: low_key, value: felt(7) });
    assert_eq!(
        low.resume(BalanceReply::Written(Err("full".to_string()))),
        Err("failed to write low fee-token balance for ContractAddress(PatriciaKey(0x5)): full"
            .to_string())
    );
    let high = low.resume(BalanceReply::Written(Ok(()))).unwrap().unwrap();
    assert_eq!(high.request(), BalanceRequest::Write { key: high_key, value: felt(2) });
    assert_eq!(
        high.resume(BalanceReply::Written(Err("full".to_string()))),
        Err("failed to write high fee-token balance for ContractAddress(PatriciaKey(0x5)): full"
            .to_string())
    );
    let next = high.resume(BalanceReply::Written(Ok(()))).unwrap().unwrap();
    assert_eq!(next.request(), BalanceRequest::Read { owner: address(7) });
}

#[test]
fn a_reply_to_something_else_changes_nothing() {
    let plan = reconcile_fee_token_balances(address(5), address(7), Fee(17), Fee(11)).unwrap();
    assert_eq!(plan.resume(BalanceReply::Written(Ok(()))), Ok(Some(plan)));
}

#[test]
fn settles_both_balances_and_loses_nothing() {
    let mut storage = Storage::with(vec![(5, 100, 0), (7, 4, 1), (9, 1, 1)]);
    let plan = reconcile_fee_token_balances(address(5), address(7), Fee(17), Fee(11));
    assert_eq!(storage.settle(plan), Ok(()));
    assert_eq!(storage.balance(5), (felt(106), felt(0)));
    assert_eq!(storage.balance(7), (felt(u128::MAX - 1), felt(0)));
    assert_eq!(storage.balance(9), (felt(1), felt(1)));

    let back = reconcile_fee_token_balances(address(5), address(7), Fee(11), Fee(17));
    assert_eq!(storage.settle(back), Ok(()));
    assert_eq!(storage.balance(5), (felt(100), felt(0)));
    assert_eq!(storage.balance(7), (felt(4), felt(1)));
}

#[test]
fn settles_nothing_that_a_balance_cannot_pay() {
    let mut storage = Storage::with(vec![(5, 100, 0), (7, 4, 0)]);
    let plan = reconcile_fee_token_balances(address(5), address(7), Fee(17), Fee(11));
    assert_eq!(storage.settle(plan), Err("fee-token balance underflowed u256".to_string()));
    assert_eq!(storage.balance(5), (felt(106), felt(0)));
    assert_eq!(storage.balance(7), (felt(4), felt(0)));
}

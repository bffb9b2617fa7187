use committed_fee::balance::{BalanceReply, BalanceRequest};
use committed_fee::felt::{ContractAddress, Felt};
use committed_fee::receipt::{Event, Fee, GasVector};
use committed_fee::replay::{
    execute_with_committed_fees, reconcile_transaction_receipt, BlockProcessingError,
    CommittedReceipt, ExecutionInfo, Replay, ReplayProgress, ReplayReply, ReplayRequest,
    ReplayTransaction, TransactionKind,
};
use committed_fee::trace::{CallInfo, EventContent, OrderedEvent};
use starknet_api::abi::abi_utils::selector_from_name;
use starknet_api::transaction::constants::TRANSFER_EVENT_NAME;

const FEE_TOKEN: u128 = 3;
const SENDER: u128 = 5;
const SEQUENCER: u128 = 7;

fn felt(value: u128) -> Felt {
    Felt::from_u128(value)
}

fn address(value: u128) -> ContractAddress {
    ContractAddress::try_from_felt(felt(value)).unwrap()
}

fn selector() -> Felt {
    let bytes = selector_from_name(TRANSFER_EVENT_NAME).0.to_bytes_be();
    Felt::from_parts(
        u128::from_be_bytes(bytes[..16].try_into().unwrap()),
        u128::from_be_bytes(bytes[16..].try_into().unwrap()),
    )
    .unwrap()
}

fn gas(amount: u64) -> GasVector {
    GasVector { l1_gas: amount, l1_data_gas: amount + 1, l2_gas: amount + 2 }
}

fn account(tx_hash: u128, sender: u128) -> ReplayTransaction {
    ReplayTransaction {
        tx_hash: felt(tx_hash),
        kind: TransactionKind::Account {
            sender_address: address(sender),
            fee_token_address: address(FEE_TOKEN),
        },
    }
}

fn non_account(tx_hash: u128) -> ReplayTransaction {
    ReplayTransaction { tx_hash: felt(tx_hash), kind: TransactionKind::NonAccount }
}

fn receipt(fee: u128, sender: u128, charge: u128) -> CommittedReceipt {
    CommittedReceipt {
        actual_fee: Ok(Fee(fee)),
        gas: gas(50),
        events: vec![Event {
            from_address: felt(FEE_TOKEN),
            keys: vec![selector()],
            data: vec![felt(sender), felt(SEQUENCER), felt(charge), felt(0)],
        }],
    }
}

fn transfer(fee: u128) -> CallInfo {
    CallInfo {
        calldata: vec![felt(SEQUENCER), felt(fee), felt(0)],
        events: vec![OrderedEvent {
            order: 0,
            event: EventContent {
                keys: vec![selector()],
                data: vec![felt(SENDER), felt(SEQUENCER), felt(fee), felt(0)],
            },
        }],
        inner_calls: vec![],
    }
}

fn executed(fee: u128) -> ExecutionInfo {
    ExecutionInfo { fee: Fee(fee), gas: gas(1), fee_transfer_call_info: Some(transfer(fee)) }
}

fn reconciled(fee: u128) -> ExecutionInfo {
    ExecutionInfo { fee: Fee(fee), gas: gas(50), fee_transfer_call_info: Some(transfer(fee)) }
}

fn start(transactions: Vec<ReplayTransaction>) -> Replay {
    pending(Ok(execute_with_committed_fees(transactions, address(SEQUENCER))))
}

fn pending(outcome: Result<ReplayProgress, BlockProcessingError<u8>>) -> Replay {
    match outcome {
        Ok(ReplayProgress::Pending(replay)) => replay,
        other => panic!("not pending: {other:?}"),
    }
}

fn complete(outcome: Result<ReplayProgress, BlockProcessingError<u8>>) -> Vec<ExecutionInfo> {
    match outcome {
        Ok(ReplayProgress::Complete(infos)) => infos,
        other => panic!("not complete: {other:?}"),
    }
}

fn failure(outcome: Result<ReplayProgress, BlockProcessingError<u8>>) -> (Felt, String) {
    match outcome {
        Err(BlockProcessingError::CommittedFeeReplay { tx_hash, reason }) => (tx_hash, reason),
        other => panic!("no failed replay: {other:?}"),
    }
}

fn found(replay: Replay, receipt: CommittedReceipt) -> Replay {
    pending(replay.resume(ReplayReply::Receipt(Some(receipt))))
}

#[test]
fn an_empty_block_is_complete() {
    assert_eq!(complete(Ok(execute_with_committed_fees(vec![], address(SEQUENCER)))), vec![]);
}

#[test]
fn reconciles_each_transaction_before_the_next() {
    let replay = start(vec![account(100, SENDER), non_account(101)]);
    assert_eq!(replay.request(), ReplayRequest::FindReceipt { tx_hash: felt(100) });
    let replay = found(replay, receipt(20, SENDER, 11));
    assert_eq!(replay.request(), ReplayRequest::Execute { index: 0 });
    let replay = pending(replay.resume(ReplayReply::Executed(Some(Ok(executed(17))))));
    assert_eq!(replay.request(), ReplayRequest::CheckBlockState);
    assert_eq!(replay.completed(), []);
    let mut replay = pending(replay.resume(ReplayReply::BlockState(true)));

    let mut written = vec![];
    for balance in [(felt(100), felt(0)), (felt(50), felt(0))] {
        let owner = match replay.request() {
            ReplayRequest::Storage {
                fee_token_address,
                request: BalanceRequest::Read { owner },
            } => {
                assert_eq!(fee_token_address, address(FEE_TOKEN));
                owner
            }
            other => panic!("no read: {other:?}"),
        };
        replay = pending(
            replay.resume(ReplayReply::Storage(BalanceReply::Balance(Ok(balance)))),
        );
        match replay.request() {
            ReplayRequest::Storage { request: BalanceRequest::Write { value, .. }, .. } => {
                written.push((owner, value))
            }
            other => panic!("no write: {other:?}"),
        }
        replay = pending(replay.resume(ReplayReply::Storage(BalanceReply::Written(Ok(())))));
        match replay.request() {
            ReplayRequest::Storage { request: BalanceRequest::Write { value, .. }, .. } => {
                assert_eq!(value, felt(0))
            }
            other => panic!("no write: {other:?}"),
        }
        replay = pending(replay.resume(ReplayReply::Storage(BalanceReply::Written(Ok(())))));
    }
    assert_eq!(written, vec![(address(SENDER), felt(106)), (address(SEQUENCER), felt(44))]);
    assert_eq!(replay.completed(), [reconciled(11)]);

    assert_eq!(replay.request(), ReplayRequest::FindReceipt { tx_hash: felt(101) });
    let replay = found(
        replay,
        CommittedReceipt { actual_fee: Ok(Fee(4)), gas: gas(9), events: vec![] },
    );
    assert_eq!(replay.request(), ReplayRequest::Execute { index: 1 });
    let info = ExecutionInfo { fee: Fee(4), gas: gas(2), fee_transfer_call_info: None };
    let infos = complete(replay.resume(ReplayReply::Executed(Some(Ok(info)))));
    assert_eq!(
        infos,
        vec![
            reconciled(11),
            ExecutionInfo { fee: Fee(4), gas: gas(9), fee_transfer_call_info: None },
        ]
    );
}

#[test]
fn an_agreeing_charge_changes_the_gas_alone() {
    let replay = found(start(vec![account(100, SENDER)]), receipt(20, SENDER, 17));
    let infos = complete(replay.resume(ReplayReply::Executed(Some(Ok(executed(17))))));
    assert_eq!(infos, vec![reconciled(17)]);
}

#[test]
fn a_sequencer_pays_itself() {
    let replay = found(start(vec![account(100, SEQUENCER)]), receipt(20, SEQUENCER, 11));
    let infos = complete(replay.resume(ReplayReply::Executed(Some(Ok(executed(17))))));
    assert_eq!(infos, vec![reconciled(11)]);
}

#[test]
fn reports_a_missing_receipt() {
    assert_eq!(
        failure(start(vec![account(100, SENDER)]).resume(ReplayReply::Receipt(None))),
        (felt(100), "transaction receipt is missing".to_string())
    );
}

#[test]
fn reports_a_receipt_without_a_fee() {
    let receipt =
        CommittedReceipt { actual_fee: Err("too large".to_string()), gas: gas(1), events: vec![] };
    assert_eq!(
        failure(start(vec![account(100, SENDER)]).resume(ReplayReply::Receipt(Some(receipt)))),
        (felt(100), "too large".to_string())
    );
}

#[test]
fn reports_an_execution_without_a_result() {
    let replay = found(start(vec![account(100, SENDER)]), receipt(20, SENDER, 11));
    assert_eq!(
        failure(replay.resume(ReplayReply::Executed(None))),
        (felt(100), "Blockifier returned no execution result".to_string())
    );
}

#[test]
fn hands_on_the_error_of_an_execution() {
    let replay = found(start(vec![account(100, SENDER)]), receipt(20, SENDER, 11));
    assert!(matches!(
        replay.resume(ReplayReply::Executed(Some(Err(42u8)))),
        Err(BlockProcessingError::Execution(42))
    ));
}

#[test]
fn reports_a_receipt_without_a_fee_transfer() {
    let replay = found(start(vec![account(100, SENDER)]), receipt(20, 6, 11));
    assert_eq!(
        failure(replay.resume(ReplayReply::Executed(Some(Ok(executed(17)))))),
        (
            felt(100),
            "receipt contained 0 matching fee-transfer events from 0x5 to 0x7; expected exactly 1"
                .to_string()
        )
    );
}

#[test]
fn reports_a_charge_that_no_account_pays() {
    let replay = found(start(vec![non_account(100)]), receipt(20, SENDER, 11));
    assert_eq!(
        failure(replay.resume(ReplayReply::Executed(Some(Ok(executed(17)))))),
        (
            felt(100),
            "non-account transaction charge differs: calculated=17, committed=20".to_string()
        )
    );
}

#[test]
fn reports_an_absent_fee_transfer() {
    let replay = found(start(vec![account(100, SENDER)]), receipt(20, SENDER, 11));
    let info = ExecutionInfo { fee: Fee(17), gas: gas(1), fee_transfer_call_info: None };
    assert_eq!(
        failure(replay.resume(ReplayReply::Executed(Some(Ok(info))))),
        (
            felt(100),
            "fee transfer is absent while calculated charge 17 differs from committed charge 11"
                .to_string()
        )
    );
}

#[test]
fn reports_a_trace_of_another_fee() {
    let replay = found(start(vec![account(100, SENDER)]), receipt(20, SENDER, 11));
    let info = ExecutionInfo {
        fee: Fee(17),
        gas: gas(1),
        fee_transfer_call_info: Some(transfer(16)),
    };
    assert_eq!(
        failure(replay.resume(ReplayReply::Executed(Some(Ok(info))))),
        (
            felt(100),
            "fee-transfer calldata does not contain the calculated fee 17; got [0x10, 0x0]"
                .to_string()
        )
    );
}

#[test]
fn reports_a_missing_block_state() {
    let replay = found(start(vec![account(100, SENDER)]), receipt(20, SENDER, 11));
    let replay = pending(replay.resume(ReplayReply::Executed(Some(Ok(executed(17))))));
    assert!(matches!(
        replay.resume(ReplayReply::<u8>::BlockState(false)),
        Err(BlockProcessingError::MissingBlockStateAfterExecution)
    ));
}

#[test]
fn reports_a_balance_that_cannot_be_read() {
    let replay = found(start(vec![account(100, SENDER)]), receipt(20, SENDER, 11));
    let replay = pending(replay.resume(ReplayReply::Executed(Some(Ok(executed(17))))));
    let replay = pending(replay.resume(ReplayReply::BlockState(true)));
    let reply = BalanceReply::Balance(Err("no node".to_string()));
    assert_eq!(
        failure(replay.resume(ReplayReply::Storage(reply))),
        (
            felt(100),
            "failed to read fee-token balance for ContractAddress(PatriciaKey(0x5)): no node"
                .to_string()
        )
    );
}

#[test]
fn a_reply_to_something_else_leaves_the_replay_waiting() {
    let replay = start(vec![account(100, SENDER)]);
    let replay = pending(replay.resume(ReplayReply::BlockState(false)));
    assert_eq!(replay.request(), ReplayRequest::FindReceipt { tx_hash: felt(100) });
    let replay = found(replay, receipt(20, SENDER, 11));
    let replay = pending(replay.resume(ReplayReply::Receipt(None)));
    assert_eq!(replay.request(), ReplayRequest::Execute { index: 0 });
}

#[test]
fn reconciles_one_receipt() {
    let mut info = executed(17);
    let transaction = account(100, SENDER);
    let plan = reconcile_transaction_receipt(
        &transaction,
        address(SEQUENCER),
        selector(),
        &mut info,
        Fee(11),
        gas(50),
    );
    let plan = plan.unwrap().unwrap();
    assert_eq!((plan.current.owner, plan.current.amount), (address(SENDER), 6));
    assert!(plan.current.increase);
    assert_eq!(
        info,
        ExecutionInfo {
            fee: Fee(17),
            gas: gas(1),
            fee_transfer_call_info: Some(transfer(11)),
        }
    );
}

#[test]
fn an_unsettled_execution_is_not_reconciled_again() {
    let mut info = executed(17);
    let transaction = account(100, SENDER);
    let sequencer = address(SEQUENCER);
    let first = reconcile_transaction_receipt(
        &transaction,
        sequencer,
        selector(),
        &mut info,
        Fee(11),
        gas(50),
    );
    assert!(first.unwrap().is_some());
    let second = reconcile_transaction_receipt(
        &transaction,
        sequencer,
        selector(),
        &mut info,
        Fee(11),
        gas(50),
    );
    assert_eq!(
        second.unwrap_err(),
        "fee-transfer calldata does not contain the calculated fee 17; got [0xb, 0x0]"
    );
    assert_eq!((info.fee, info.gas), (Fee(17), gas(1)));
}

#[test]
fn a_receipt_that_needs_no_balances_is_reconciled_at_once() {
    let mut info = executed(17);
    let plan = reconcile_transaction_receipt(
        &account(100, SEQUENCER),
        address(SEQUENCER),
        selector(),
        &mut info,
        Fee(11),
        gas(50),
    );
    assert_eq!(plan.unwrap(), None);
    assert_eq!(info, reconciled(11));
}

#[test]
fn a_failed_reconciliation_leaves_the_receipt() {
    let mut info = executed(17);
    let outcome = reconcile_transaction_receipt(
        &non_account(100),
        address(SEQUENCER),
        selector(),
        &mut info,
        Fee(11),
        gas(50),
    );
    assert!(outcome.is_err());
    assert_eq!(info, executed(17));
}

#[test]
fn starts_with_a_given_selector() {
    match Replay::start(vec![account(100, SENDER)], address(SEQUENCER), felt(1)) {
        ReplayProgress::Pending(replay) => {
            let replay = found(replay, receipt(20, SENDER, 17));
            assert_eq!(
                failure(replay.resume(ReplayReply::Executed(Some(Ok(executed(17)))))).1,
                "receipt contained 0 matching fee-transfer events from 0x5 to 0x7; \
                 expected exactly 1"
            );
        }
        other => panic!("not pending: {other:?}"),
    }
}

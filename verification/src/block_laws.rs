//! What the answers to a replay's requests have to do with the executions that it hands out.
use vstd::prelude::*;

use crate::balance::{
    adjustment_writes, planned_reconciliation, ReconciliationModel, ReplyModel, RequestModel,
    StageModel,
};
use crate::balance_laws::{change, law_plan_makes_up_for_the_difference, law_writes_add_up};
use crate::felt::{fee_token_balance_key, ContractAddress, Felt};
use crate::receipt::{Fee, GasVector};
use crate::replay::{
    committed_charge, fee_token_of, receipt_reconciliation, reconciled_execution, replay_request,
    replay_start, replay_step, retraced, with_receipt, ErrorModel, ExecutionModel, PhaseModel,
    ProgressModel, ReceiptModel, ReplayModel, ReplayReplyModel, ReplayRequestModel,
    ReplayTransaction, TransactionKind, UnsettledModel,
};
use crate::replay_laws::{
    charged, goes_on_in, law_committed_charge_is_what_was_charged,
    law_irreconcilable_charge_is_refused, moves_once, replayed, transfer_rewritten, turns_to_next,
};
use crate::trace::calldata_reason;
use crate::trace_laws::{
    law_reconciled_trace_keeps_the_rest, law_reconciled_trace_says_committed_fee,
    law_trace_is_refused_with_what_it_has, times_moved,
};

verus! {

/// The receipts and the executions that a replay was given, each in the order of the block.
#[verifier::ext_equal]
pub struct GivenModel {
    pub receipts: Seq<ReceiptModel>,
    pub executions: Seq<ExecutionModel>,
}

/// What a replay was given, once a reply in this phase is counted in.
pub open spec fn given_with<E>(
    given: GivenModel,
    phase: PhaseModel,
    reply: ReplayReplyModel<E>,
) -> GivenModel {
    match (phase, reply) {
        (PhaseModel::Receipt, ReplayReplyModel::Receipt(Some(receipt))) => GivenModel {
            receipts: given.receipts.push(receipt),
            ..given
        },
        (PhaseModel::Execution { .. }, ReplayReplyModel::Executed(Some(Ok(info)))) => GivenModel {
            executions: given.executions.push(info),
            ..given
        },
        _ => given,
    }
}

/// The receipts and the executions among the replies: those that answered a request for one.
pub open spec fn given_by<E>(
    start: ProgressModel,
    replies: Seq<ReplayReplyModel<E>>,
) -> GivenModel
    decreases replies.len(),
{
    if replies.len() == 0 {
        GivenModel { receipts: Seq::empty(), executions: Seq::empty() }
    } else {
        let given = given_by(start, replies.drop_last());
        match replayed(start, replies.drop_last()) {
            Ok(ProgressModel::Pending(replay)) => given_with(given, replay.phase, replies.last()),
            _ => given,
        }
    }
}

/// The charge that a receipt commits a transaction to.
pub open spec fn charge_on(
    transaction: ReplayTransaction,
    sequencer: ContractAddress,
    selector: nat,
    receipt: ReceiptModel,
) -> Result<Fee, Seq<char>> {
    match receipt.actual_fee {
        Ok(fee) => committed_charge(transaction, sequencer, selector, fee, receipt.events),
        Err(reason) => Err(reason),
    }
}

/// Whether `completed` is the execution `info` of the transaction, reconciled with the receipt: its
/// trace moves the receipt's charge, and it shows that charge and the receipt's gas.
pub open spec fn agrees_with_receipt(
    transaction: ReplayTransaction,
    sequencer: ContractAddress,
    selector: nat,
    receipt: ReceiptModel,
    info: ExecutionModel,
    completed: ExecutionModel,
) -> bool {
    charge_on(transaction, sequencer, selector, receipt) matches Ok(charge) && completed
        == with_receipt(retraced(transaction, selector, info, charge), charge, receipt.gas)
        && receipt_reconciliation(transaction, sequencer, selector, info, charge) is Ok
}

/// Whether what is held of an execution, while balances are reconciled, is what execution gave with
/// its trace alone rewritten, beside the charge and the gas of the receipt.
pub open spec fn holds_execution(
    transaction: ReplayTransaction,
    sequencer: ContractAddress,
    selector: nat,
    receipt: ReceiptModel,
    info: ExecutionModel,
    unsettled: UnsettledModel,
) -> bool {
    &&& transaction.kind is Account
    &&& unsettled.fee_token == fee_token_of(transaction)
    &&& charge_on(transaction, sequencer, selector, receipt) == Ok::<Fee, Seq<char>>(
        unsettled.charge,
    )
    &&& unsettled.gas == receipt.gas
    &&& unsettled.info == retraced(transaction, selector, info, unsettled.charge)
    &&& receipt_reconciliation(transaction, sequencer, selector, info, unsettled.charge) is Ok
}

/// Whether each of these executions is the given one, reconciled with the given receipt.
pub open spec fn all_agree(
    transactions: Seq<ReplayTransaction>,
    sequencer: ContractAddress,
    selector: nat,
    given: GivenModel,
    completed: Seq<ExecutionModel>,
) -> bool {
    forall|i: int|
        0 <= i < completed.len() ==> agrees_with_receipt(
            transactions[i],
            sequencer,
            selector,
            given.receipts[i],
            given.executions[i],
            #[trigger] completed[i],
        )
}

/// Whether a replay of these transactions can have come to this, given these receipts and
/// executions.
pub open spec fn accounted_for(
    progress: ProgressModel,
    transactions: Seq<ReplayTransaction>,
    sequencer: ContractAddress,
    selector: nat,
    given: GivenModel,
) -> bool {
    match progress {
        ProgressModel::Complete(infos) => {
            &&& infos.len() == transactions.len()
            &&& given.receipts.len() == infos.len()
            &&& given.executions.len() == infos.len()
            &&& all_agree(transactions, sequencer, selector, given, infos)
        },
        ProgressModel::Pending(replay) => {
            let current = replay.completed.len();
            &&& replay.transactions == transactions
            &&& replay.sequencer == sequencer
            &&& replay.selector == selector
            &&& current < transactions.len()
            &&& all_agree(transactions, sequencer, selector, given, replay.completed)
            &&& match replay.phase {
                PhaseModel::Receipt => {
                    &&& given.receipts.len() == current
                    &&& given.executions.len() == current
                },
                PhaseModel::Execution { receipt_fee, gas, events } => {
                    &&& given.receipts.len() == current + 1
                    &&& given.executions.len() == current
                    &&& given.receipts.last() == (ReceiptModel {
                        actual_fee: Ok(receipt_fee),
                        gas,
                        events,
                    })
                },
                PhaseModel::BlockState(unsettled) | PhaseModel::Balances(unsettled) => {
                    &&& given.receipts.len() == current + 1
                    &&& given.executions.len() == current + 1
                    &&& holds_execution(
                        transactions[current as int],
                        sequencer,
                        selector,
                        given.receipts.last(),
                        given.executions.last(),
                        unsettled,
                    )
                },
            }
        },
    }
}

/// A reply keeps a replay accounted for.
proof fn lemma_step_accounted_for<E>(
    replay: ReplayModel,
    given: GivenModel,
    reply: ReplayReplyModel<E>,
)
    requires
        accounted_for(
            ProgressModel::Pending(replay),
            replay.transactions,
            replay.sequencer,
            replay.selector,
            given,
        ),
    ensures
        replay_step(replay, reply) matches Ok(progress) ==> accounted_for(
            progress,
            replay.transactions,
            replay.sequencer,
            replay.selector,
            given_with(given, replay.phase, reply),
        ),
{
}

/// Whatever is replied, a replay that has not failed is accounted for by what it was given.
pub proof fn law_replay_is_accounted_for<E>(
    transactions: Seq<ReplayTransaction>,
    sequencer: ContractAddress,
    selector: nat,
    replies: Seq<ReplayReplyModel<E>>,
)
    ensures
        ({
            let start = replay_start(transactions, sequencer, selector);
            replayed(start, replies) matches Ok(progress) ==> accounted_for(
                progress,
                transactions,
                sequencer,
                selector,
                given_by(start, replies),
            )
        }),
    decreases replies.len(),
{
    let start = replay_start(transactions, sequencer, selector);
    if replies.len() > 0 {
        let earlier = replies.drop_last();
        law_replay_is_accounted_for(transactions, sequencer, selector, earlier);
        if let Ok(ProgressModel::Pending(replay)) = replayed(start, earlier) {
            lemma_step_accounted_for(replay, given_by(start, earlier), replies.last());
        }
    }
}

/// A completed replay hands out, for each transaction of the block, the execution that it was given
/// for it, with the charge and the gas of the receipt that it was given for it: the trace of the fee
/// transfer moves that charge, and the execution's receipt shows both.
pub proof fn law_completed_block_shows_what_was_committed<E>(
    transactions: Seq<ReplayTransaction>,
    sequencer: ContractAddress,
    selector: nat,
    replies: Seq<ReplayReplyModel<E>>,
    i: int,
)
    requires
        0 <= i < transactions.len(),
    ensures
        ({
            let start = replay_start(transactions, sequencer, selector);
            let given = given_by(start, replies);
            replayed(start, replies) matches Ok(ProgressModel::Complete(infos)) ==> {
                &&& infos.len() == transactions.len()
                &&& given.receipts.len() == transactions.len()
                &&& given.executions.len() == transactions.len()
                &&& given.receipts[i].actual_fee matches Ok(receipt_fee) && committed_charge(
                    transactions[i],
                    sequencer,
                    selector,
                    receipt_fee,
                    given.receipts[i].events,
                ) matches Ok(charge) && infos[i] == with_receipt(
                    retraced(transactions[i], selector, given.executions[i], charge),
                    charge,
                    given.receipts[i].gas,
                )
            }
        }),
{
    law_replay_is_accounted_for(transactions, sequencer, selector, replies);
    if let Ok(ProgressModel::Complete(infos)) = replayed(
        replay_start(transactions, sequencer, selector),
        replies,
    ) {
        assert(agrees_with_receipt(
            transactions[i],
            sequencer,
            selector,
            given_by(replay_start(transactions, sequencer, selector), replies).receipts[i],
            given_by(replay_start(transactions, sequencer, selector), replies).executions[i],
            infos[i],
        ));
    }
}

/// A replay asks only for storage of the token that the current transaction is paid in, and only
/// where an account pays for that transaction.
pub proof fn law_storage_requests_name_the_fee_token<E>(
    transactions: Seq<ReplayTransaction>,
    sequencer: ContractAddress,
    selector: nat,
    replies: Seq<ReplayReplyModel<E>>,
)
    ensures
        replayed(replay_start(transactions, sequencer, selector), replies) matches Ok(
            ProgressModel::Pending(replay),
        ) ==> (replay_request(replay) matches ReplayRequestModel::Storage { fee_token, request }
            ==> {
            &&& transactions[replay.completed.len() as int].kind is Account
            &&& fee_token == fee_token_of(transactions[replay.completed.len() as int])
        }),
{
    law_replay_is_accounted_for(transactions, sequencer, selector, replies);
}

/// While balances are to be reconciled, the execution that a replay holds has the charge and the gas
/// that execution gave, and only its trace is rewritten. So it is where the block state turns out
/// to be missing, and where a balance cannot be read, adjusted or written, which are the failures
/// that are left; those of a balance name the transaction.
pub proof fn law_failed_balances_leave_the_receipt<E>(
    transactions: Seq<ReplayTransaction>,
    sequencer: ContractAddress,
    selector: nat,
    replies: Seq<ReplayReplyModel<E>>,
    reply: ReplayReplyModel<E>,
)
    ensures
        ({
            let start = replay_start(transactions, sequencer, selector);
            let given = given_by(start, replies);
            replayed(start, replies) matches Ok(ProgressModel::Pending(replay)) ==> {
                let held = match replay.phase {
                    PhaseModel::BlockState(unsettled) => Some(unsettled),
                    PhaseModel::Balances(unsettled) => Some(unsettled),
                    _ => None,
                };
                held matches Some(unsettled) ==> {
                    let info = given.executions[replay.completed.len() as int];
                    &&& unsettled.info.fee == info.fee
                    &&& unsettled.info.gas == info.gas
                    &&& unsettled.info == retraced(
                        transactions[replay.completed.len() as int],
                        selector,
                        info,
                        unsettled.charge,
                    )
                    &&& replay_step(replay, reply) matches Err(error) ==> match error {
                        ErrorModel::MissingBlockStateAfterExecution => true,
                        ErrorModel::CommittedFeeReplay { tx_hash, .. } => tx_hash
                            == transactions[replay.completed.len() as int].tx_hash,
                        ErrorModel::Execution(_) => false,
                    }
                }
            }
        }),
{
    law_replay_is_accounted_for(transactions, sequencer, selector, replies);
}

/// Reconciling a receipt changes the charge and the gas on it only where nothing is left to do.
pub proof fn law_receipt_stays_until_balances_agree(
    transaction: ReplayTransaction,
    sequencer: ContractAddress,
    selector: nat,
    info: ExecutionModel,
    charge: Fee,
    gas: GasVector,
)
    ensures
        ({
            let outcome = receipt_reconciliation(transaction, sequencer, selector, info, charge);
            let after = reconciled_execution(
                transaction,
                sequencer,
                selector,
                info,
                charge,
                gas,
            );
            if outcome == Ok::<Option<ReconciliationModel>, Seq<char>>(None) {
                after.fee == charge && after.gas == gas
            } else {
                after.fee == info.fee && after.gas == info.gas
            }
        }),
{
}

/// An execution whose balances are still to be reconciled cannot be reconciled a second time: its
/// calldata no longer moves the calculated charge.
pub proof fn law_unsettled_execution_is_refused(
    transaction: ReplayTransaction,
    sequencer: ContractAddress,
    selector: nat,
    info: ExecutionModel,
    charge: Fee,
    gas: GasVector,
)
    requires
        receipt_reconciliation(transaction, sequencer, selector, info, charge) matches Ok(Some(_)),
    ensures
        ({
            let after = reconciled_execution(
                transaction,
                sequencer,
                selector,
                info,
                charge,
                gas,
            );
            after.fee_transfer matches Some(call) && receipt_reconciliation(
                transaction,
                sequencer,
                selector,
                after,
                charge,
            ) == Err::<Option<ReconciliationModel>, Seq<char>>(
                calldata_reason(call.calldata, info.fee.0 as nat),
            )
        }),
{
}

/// Whether `done` is the execution `info` as the receipt commits it: with the charge, with the
/// receipt's gas, and with the fee transfer that execution gave, which stays as it is where the
/// charge was calculated and otherwise moves the charge in place of the calculated fee.
pub open spec fn shows_committed(
    transaction: ReplayTransaction,
    sequencer: ContractAddress,
    selector: nat,
    receipt: ReceiptModel,
    info: ExecutionModel,
    done: ExecutionModel,
) -> bool {
    &&& receipt.actual_fee matches Ok(receipt_fee) && charged(
        transaction,
        sequencer,
        selector,
        receipt_fee,
        receipt.events,
        done.fee,
    )
    &&& done.gas == receipt.gas
    &&& transaction.kind is NonAccount ==> done.fee == info.fee
    &&& match (info.fee_transfer, done.fee_transfer) {
        (None, None) => done.fee == info.fee,
        (Some(before), Some(after)) => if done.fee == info.fee {
            after == before
        } else {
            &&& moves_once(before, selector, info.fee.0 as nat)
            &&& transfer_rewritten(
                before,
                after,
                selector,
                info.fee.0 as nat,
                done.fee.0 as nat,
            )
            &&& times_moved(after, selector, done.fee.0 as nat) == 1 + times_moved(
                before,
                selector,
                done.fee.0 as nat,
            )
            &&& times_moved(after, selector, info.fee.0 as nat) == 0
        },
        _ => false,
    }
}

/// An execution that was reconciled with a receipt shows what the receipt commits it to.
proof fn lemma_reconciled_shows_committed(
    transaction: ReplayTransaction,
    sequencer: ContractAddress,
    selector: nat,
    receipt: ReceiptModel,
    info: ExecutionModel,
    done: ExecutionModel,
)
    requires
        agrees_with_receipt(transaction, sequencer, selector, receipt, info, done),
    ensures
        shows_committed(transaction, sequencer, selector, receipt, info, done),
{
    let charge = done.fee;
    let calculated = info.fee.0 as nat;
    law_committed_charge_is_what_was_charged(
        transaction,
        sequencer,
        selector,
        receipt.actual_fee->Ok_0,
        receipt.events,
        charge,
    );
    law_irreconcilable_charge_is_refused(transaction, sequencer, selector, info, charge);
    if let Some(call) = info.fee_transfer {
        if charge != info.fee {
            law_trace_is_refused_with_what_it_has(call, selector, calculated);
            law_reconciled_trace_keeps_the_rest(call, selector, calculated, charge.0 as nat);
            law_reconciled_trace_says_committed_fee(call, selector, calculated, charge.0 as nat);
        }
    }
}

/// In a completed replay every transaction has the execution that was given for it, as the receipt
/// that was given for it commits it: the charge, the gas, and a fee transfer that is there exactly
/// where execution gave one and moves the charge.
pub proof fn law_completed_block_by_fields<E>(
    transactions: Seq<ReplayTransaction>,
    sequencer: ContractAddress,
    selector: nat,
    replies: Seq<ReplayReplyModel<E>>,
    i: int,
)
    requires
        0 <= i < transactions.len(),
    ensures
        ({
            let start = replay_start(transactions, sequencer, selector);
            let given = given_by(start, replies);
            replayed(start, replies) matches Ok(ProgressModel::Complete(infos)) ==> {
                &&& infos.len() == transactions.len()
                &&& given.receipts.len() == transactions.len()
                &&& given.executions.len() == transactions.len()
                &&& shows_committed(
                    transactions[i],
                    sequencer,
                    selector,
                    given.receipts[i],
                    given.executions[i],
                    infos[i],
                )
            }
        }),
{
    let start = replay_start(transactions, sequencer, selector);
    let given = given_by(start, replies);
    law_replay_is_accounted_for(transactions, sequencer, selector, replies);
    if let Ok(ProgressModel::Complete(infos)) = replayed(start, replies) {
        assert(agrees_with_receipt(
            transactions[i],
            sequencer,
            selector,
            given.receipts[i],
            given.executions[i],
            infos[i],
        ));
        lemma_reconciled_shows_committed(
            transactions[i],
            sequencer,
            selector,
            given.receipts[i],
            given.executions[i],
            infos[i],
        );
    }
}

/// Where a replay is carried out: the committed receipts by transaction hash, what executing each
/// transaction of the block gives, and the storage that it leaves, by contract and key.
pub struct ChainModel {
    pub receipts: Map<Felt, ReceiptModel>,
    pub executions: Seq<ExecutionModel>,
    pub states: Seq<Map<(nat, nat), nat>>,
}

/// What comes of a request on the chain with this storage.
pub open spec fn chain_reply<E>(
    chain: ChainModel,
    storage: Map<(nat, nat), nat>,
    request: ReplayRequestModel,
) -> ReplayReplyModel<E> {
    match request {
        ReplayRequestModel::FindReceipt { tx_hash } => ReplayReplyModel::Receipt(
            if chain.receipts.dom().contains(tx_hash) {
                Some(chain.receipts[tx_hash])
            } else {
                None
            },
        ),
        ReplayRequestModel::Execute { index } => ReplayReplyModel::Executed(
            Some(Ok(chain.executions[index as int])),
        ),
        ReplayRequestModel::CheckBlockState => ReplayReplyModel::BlockState(true),
        ReplayRequestModel::Storage { fee_token, request } => ReplayReplyModel::Storage(
            match request {
                RequestModel::Read { owner } => {
                    let key = fee_token_balance_key(owner@);
                    ReplyModel::Balance(
                        Ok((storage[(fee_token@, key)], storage[(fee_token@, key + 1)])),
                    )
                },
                RequestModel::Write { key, value } => ReplyModel::Written(Ok(())),
            },
        ),
    }
}

/// The storage after a request.
pub open spec fn chain_storage(
    chain: ChainModel,
    storage: Map<(nat, nat), nat>,
    request: ReplayRequestModel,
) -> Map<(nat, nat), nat> {
    match request {
        ReplayRequestModel::Execute { index } => chain.states[index as int],
        ReplayRequestModel::Storage { fee_token, request: RequestModel::Write { key, value } } => {
            storage.insert((fee_token@, key), value)
        },
        _ => storage,
    }
}

/// The storage, and what a replay has come to, once its next `count` requests are carried out.
pub open spec fn carried_out<E>(
    chain: ChainModel,
    storage: Map<(nat, nat), nat>,
    progress: ProgressModel,
    count: nat,
) -> Result<(Map<(nat, nat), nat>, ProgressModel), ErrorModel<E>>
    decreases count,
{
    match progress {
        ProgressModel::Pending(replay) if count > 0 => {
            let request = replay_request(replay);
            match replay_step::<E>(replay, chain_reply(chain, storage, request)) {
                Ok(next) => carried_out(
                    chain,
                    chain_storage(chain, storage, request),
                    next,
                    (count - 1) as nat,
                ),
                Err(error) => Err(error),
            }
        },
        _ => Ok((storage, progress)),
    }
}

/// The balance that is stored under a key of a contract and the key after it, low half first.
pub open spec fn balance_at(storage: Map<(nat, nat), nat>, token: nat, key: nat) -> int {
    storage[(token, key + 1)] * (u128::MAX + 1) + storage[(token, key)]
}

/// Whether the balance under a key has halves of 128 bits, and stays within 256 bits when it changes
/// by `change`.
pub open spec fn can_change(
    storage: Map<(nat, nat), nat>,
    token: nat,
    key: nat,
    change: int,
) -> bool {
    &&& storage[(token, key)] <= u128::MAX
    &&& storage[(token, key + 1)] <= u128::MAX
    &&& 0 <= balance_at(storage, token, key) + change < (u128::MAX + 1) * (u128::MAX + 1)
}

/// Whether balances are there to be reconciled: an account other than the sequencer pays, and what
/// it was charged was not calculated.
pub open spec fn balances_differ(
    transaction: ReplayTransaction,
    sequencer: ContractAddress,
    info: ExecutionModel,
    charge: Fee,
) -> bool {
    &&& transaction.kind matches TransactionKind::Account { sender_address, .. } && sender_address
        != sequencer
    &&& info.fee != charge
}

/// Whether a transaction can be replayed with a charge: its receipt has a fee and commits the
/// charge; where another was calculated, an account pays, the fee transfer moves the calculated fee
/// once, and the balances of the sender and of the sequencer, stored apart, can make up for the
/// difference.
pub open spec fn replayable(
    transaction: ReplayTransaction,
    sequencer: ContractAddress,
    selector: nat,
    chain: ChainModel,
    index: int,
    charge: Fee,
) -> bool {
    let receipt = chain.receipts[transaction.tx_hash];
    let info = chain.executions[index];
    let difference = info.fee.0 - charge.0;
    &&& chain.receipts.dom().contains(transaction.tx_hash)
    &&& receipt.actual_fee matches Ok(receipt_fee) && charged(
        transaction,
        sequencer,
        selector,
        receipt_fee,
        receipt.events,
        charge,
    )
    &&& info.fee != charge ==> {
        &&& transaction.kind is Account
        &&& info.fee_transfer matches Some(call) && moves_once(call, selector, info.fee.0 as nat)
    }
    &&& balances_differ(transaction, sequencer, info, charge) ==> {
        let token = transaction.kind->fee_token_address@;
        let sender_key = fee_token_balance_key(transaction.kind->sender_address@);
        let sequencer_key = fee_token_balance_key(sequencer@);
        &&& sender_key + 1 < sequencer_key || sequencer_key + 1 < sender_key
        &&& can_change(chain.states[index], token, sender_key, difference)
        &&& can_change(chain.states[index], token, sequencer_key, -difference)
    }
}

/// Whether `after` is `storage` with both balances of the fee token made up for the difference, and
/// nothing else changed; where there is nothing to make up for, it is `storage`.
pub open spec fn balances_made_up(
    transaction: ReplayTransaction,
    sequencer: ContractAddress,
    info: ExecutionModel,
    charge: Fee,
    storage: Map<(nat, nat), nat>,
    after: Map<(nat, nat), nat>,
) -> bool {
    if balances_differ(transaction, sequencer, info, charge) {
        let token = transaction.kind->fee_token_address@;
        let sender_key = fee_token_balance_key(transaction.kind->sender_address@);
        let sequencer_key = fee_token_balance_key(sequencer@);
        let difference = info.fee.0 - charge.0;
        &&& can_change(after, token, sender_key, 0)
        &&& can_change(after, token, sequencer_key, 0)
        &&& balance_at(after, token, sender_key) == balance_at(storage, token, sender_key)
            + difference
        &&& balance_at(after, token, sequencer_key) == balance_at(storage, token, sequencer_key)
            - difference
        &&& forall|contract: nat, key: nat|
            !(contract == token && (key == sender_key || key == sender_key + 1 || key
                == sequencer_key || key == sequencer_key + 1)) ==> #[trigger] after[(contract, key)]
                == storage[(contract, key)]
    } else {
        after == storage
    }
}

/// Three requests adjust the balance whose turn it is, in the storage of the token alone.
proof fn lemma_adjustment_is_carried_out<E>(
    chain: ChainModel,
    storage: Map<(nat, nat), nat>,
    replay: ReplayModel,
    unsettled: UnsettledModel,
) -> (done: (Map<(nat, nat), nat>, ProgressModel))
    requires
        replay.phase == PhaseModel::Balances(unsettled),
        unsettled.reconciliation.stage is Read,
        can_change(
            storage,
            unsettled.fee_token@,
            fee_token_balance_key(unsettled.reconciliation.current.owner@),
            change(
                unsettled.reconciliation.current.amount,
                unsettled.reconciliation.current.increase,
            ),
        ),
    ensures
        ({
            let current = unsettled.reconciliation.current;
            let token = unsettled.fee_token@;
            let key = fee_token_balance_key(current.owner@);
            &&& forall|more: nat|
                #[trigger] carried_out::<E>(
                    chain,
                    storage,
                    ProgressModel::Pending(replay),
                    3 + more,
                ) == carried_out::<E>(chain, done.0, done.1, more)
            &&& can_change(done.0, token, key, 0)
            &&& balance_at(done.0, token, key) == balance_at(storage, token, key) + change(
                current.amount,
                current.increase,
            )
            &&& forall|contract: nat, other: nat|
                !(contract == token && (other == key || other == key + 1))
                    ==> #[trigger] done.0[(contract, other)] == storage[(contract, other)]
            &&& match unsettled.reconciliation.rest {
                Some(rest) => goes_on_in(
                    replay,
                    done.1,
                    PhaseModel::Balances(
                        UnsettledModel {
                            reconciliation: ReconciliationModel {
                                current: rest,
                                rest: None,
                                stage: StageModel::Read,
                            },
                            ..unsettled
                        },
                    ),
                ),
                None => turns_to_next(
                    replay,
                    done.1,
                    ExecutionModel {
                        fee: unsettled.charge,
                        gas: unsettled.gas,
                        fee_transfer: unsettled.info.fee_transfer,
                    },
                ),
            }
        }),
{
    let current = unsettled.reconciliation.current;
    let token = unsettled.fee_token@;
    let key = fee_token_balance_key(current.owner@);
    let low = storage[(token, key)];
    let high = storage[(token, key + 1)];
    law_writes_add_up(current, key, key + 1, low, high, Seq::empty());
    let writes = adjustment_writes(current, key, key + 1, Ok((low, high)))->Ok_0;
    let low_replay = ReplayModel {
        phase: PhaseModel::Balances(
            UnsettledModel {
                reconciliation: ReconciliationModel {
                    stage: StageModel::WriteLow(writes),
                    ..unsettled.reconciliation
                },
                ..unsettled
            },
        ),
        ..replay
    };
    let high_replay = ReplayModel {
        phase: PhaseModel::Balances(
            UnsettledModel {
                reconciliation: ReconciliationModel {
                    stage: StageModel::WriteHigh(writes),
                    ..unsettled.reconciliation
                },
                ..unsettled
            },
        ),
        ..replay
    };
    let low_storage = storage.insert((token, key), writes.low);
    let after = low_storage.insert((token, key + 1), writes.high);
    let written = chain_reply::<E>(chain, low_storage, replay_request(high_replay));
    let progress = replay_step::<E>(high_replay, written)->Ok_0;
    assert forall|more: nat|
        #[trigger] carried_out::<E>(
            chain,
            storage,
            ProgressModel::Pending(replay),
            3 + more,
        ) == carried_out::<E>(chain, after, progress, more) by {
        assert(carried_out::<E>(chain, storage, ProgressModel::Pending(replay), 3 + more)
            == carried_out::<E>(chain, storage, ProgressModel::Pending(low_replay), 2 + more));
        assert(carried_out::<E>(chain, storage, ProgressModel::Pending(low_replay), 2 + more)
            == carried_out::<E>(
            chain,
            low_storage,
            ProgressModel::Pending(high_replay),
            1 + more,
        ));
        assert(carried_out::<E>(
            chain,
            low_storage,
            ProgressModel::Pending(high_replay),
            1 + more,
        ) == carried_out::<E>(chain, after, progress, more));
    }
    (after, progress)
}

/// How many requests it takes to replay a transaction: for its receipt and its execution, and where
/// balances are reconciled one for the state and three for each balance.
pub open spec fn requests_for(
    transaction: ReplayTransaction,
    sequencer: ContractAddress,
    info: ExecutionModel,
    charge: Fee,
) -> nat {
    if balances_differ(transaction, sequencer, info, charge) {
        9
    } else {
        2
    }
}

/// Carrying out what a replay asks for replays a transaction that can be replayed: it is completed
/// with the charge, and shows what its receipt commits it to. In the storage that its execution left,
/// the balances of the sender and of the sequencer have then made up for the difference, and nothing
/// else has changed.
pub proof fn law_transaction_is_replayed<E>(
    chain: ChainModel,
    storage: Map<(nat, nat), nat>,
    replay: ReplayModel,
    charge: Fee,
) -> (done: (Map<(nat, nat), nat>, ProgressModel, ExecutionModel))
    requires
        replay.phase is Receipt,
        replayable(
            replay.transactions[replay.completed.len() as int],
            replay.sequencer,
            replay.selector,
            chain,
            replay.completed.len() as int,
            charge,
        ),
    ensures
        ({
            let (after, progress, shown) = done;
            let transaction = replay.transactions[replay.completed.len() as int];
            let info = chain.executions[replay.completed.len() as int];
            let count = requests_for(transaction, replay.sequencer, info, charge);
            &&& carried_out::<E>(chain, storage, ProgressModel::Pending(replay), count) == Ok::<
                (Map<(nat, nat), nat>, ProgressModel),
                ErrorModel<E>,
            >((after, progress))
            &&& forall|more: nat|
                #[trigger] carried_out::<E>(
                    chain,
                    storage,
                    ProgressModel::Pending(replay),
                    count + more,
                ) == carried_out::<E>(chain, after, progress, more)
            &&& turns_to_next(replay, progress, shown)
            &&& shown.fee == charge
            &&& shows_committed(
                transaction,
                replay.sequencer,
                replay.selector,
                chain.receipts[transaction.tx_hash],
                info,
                shown,
            )
            &&& balances_made_up(
                transaction,
                replay.sequencer,
                info,
                charge,
                chain.states[replay.completed.len() as int],
                after,
            )
        }),
{
    let current = replay.completed.len() as int;
    let transaction = replay.transactions[current];
    let receipt = chain.receipts[transaction.tx_hash];
    let info = chain.executions[current];
    let state = chain.states[current];
    let receipt_fee = receipt.actual_fee->Ok_0;
    let count = requests_for(transaction, replay.sequencer, info, charge);
    let traced = retraced(transaction, replay.selector, info, charge);
    let shown = with_receipt(traced, charge, receipt.gas);
    law_committed_charge_is_what_was_charged(
        transaction,
        replay.sequencer,
        replay.selector,
        receipt_fee,
        receipt.events,
        charge,
    );
    law_irreconcilable_charge_is_refused(
        transaction,
        replay.sequencer,
        replay.selector,
        info,
        charge,
    );
    lemma_reconciled_shows_committed(
        transaction,
        replay.sequencer,
        replay.selector,
        receipt,
        info,
        shown,
    );
    let executing = ReplayModel {
        phase: PhaseModel::Execution { receipt_fee, gas: receipt.gas, events: receipt.events },
        ..replay
    };
    let executed = replay_step::<E>(executing, ReplayReplyModel::Executed(Some(Ok(info))))->Ok_0;
    assert forall|more: nat|
        #[trigger] carried_out::<E>(
            chain,
            storage,
            ProgressModel::Pending(replay),
            2 + more,
        ) == carried_out::<E>(chain, state, executed, more) by {
        assert(carried_out::<E>(chain, storage, ProgressModel::Pending(replay), 2 + more)
            == carried_out::<E>(chain, storage, ProgressModel::Pending(executing), 1 + more));
    }
    if balances_differ(transaction, replay.sequencer, info, charge) {
        let sender = transaction.kind->sender_address;
        law_plan_makes_up_for_the_difference(sender, replay.sequencer, info.fee, charge);
        let plan = planned_reconciliation(sender, replay.sequencer, info.fee, charge)->0;
        let unsettled = UnsettledModel {
            info: traced,
            charge,
            gas: receipt.gas,
            fee_token: transaction.kind->fee_token_address,
            reconciliation: plan,
        };
        let waiting = ReplayModel { phase: PhaseModel::BlockState(unsettled), ..replay };
        let settling = ReplayModel { phase: PhaseModel::Balances(unsettled), ..replay };
        assert(executed == ProgressModel::Pending(waiting));
        let (between, half_way) = lemma_adjustment_is_carried_out::<E>(
            chain,
            state,
            settling,
            unsettled,
        );
        let unsettled_rest = UnsettledModel {
            reconciliation: ReconciliationModel {
                current: plan.rest->0,
                rest: None,
                stage: StageModel::Read,
            },
            ..unsettled
        };
        let settling_rest = ReplayModel { phase: PhaseModel::Balances(unsettled_rest), ..replay };
        assert(half_way == ProgressModel::Pending(settling_rest));
        let (after, progress) = lemma_adjustment_is_carried_out::<E>(
            chain,
            between,
            settling_rest,
            unsettled_rest,
        );
        assert forall|more: nat|
            #[trigger] carried_out::<E>(
                chain,
                storage,
                ProgressModel::Pending(replay),
                count + more,
            ) == carried_out::<E>(chain, after, progress, more) by {
            assert(carried_out::<E>(
                chain,
                storage,
                ProgressModel::Pending(replay),
                2 + (7 + more) as nat,
            ) == carried_out::<E>(chain, state, executed, (7 + more) as nat));
            assert(carried_out::<E>(chain, state, executed, (7 + more) as nat) == carried_out::<E>(
                chain,
                state,
                ProgressModel::Pending(settling),
                3 + (3 + more) as nat,
            ));
            assert(carried_out::<E>(chain, between, half_way, 3 + more) == carried_out::<E>(
                chain,
                after,
                progress,
                more,
            ));
        }
        assert(carried_out::<E>(chain, storage, ProgressModel::Pending(replay), count + 0)
            == carried_out::<E>(chain, after, progress, 0));
        (after, progress, shown)
    } else {
        assert(carried_out::<E>(chain, storage, ProgressModel::Pending(replay), 2 + 0)
            == carried_out::<E>(chain, state, executed, 0));
        (state, executed, shown)
    }
}

/// From where a replay looks for a receipt, carrying out what it asks for replays the rest of the
/// block.
proof fn lemma_rest_is_replayed<E>(
    chain: ChainModel,
    storage: Map<(nat, nat), nat>,
    replay: ReplayModel,
    charges: Seq<Fee>,
) -> (done: (nat, Map<(nat, nat), nat>, Seq<ExecutionModel>))
    requires
        replay.phase is Receipt,
        replay.completed.len() < replay.transactions.len(),
        forall|i: int|
            replay.completed.len() <= i < replay.transactions.len() ==> replayable(
                #[trigger] replay.transactions[i],
                replay.sequencer,
                replay.selector,
                chain,
                i,
                charges[i],
            ),
    ensures
        ({
            let (count, after, infos) = done;
            &&& carried_out::<E>(chain, storage, ProgressModel::Pending(replay), count) == Ok::<
                (Map<(nat, nat), nat>, ProgressModel),
                ErrorModel<E>,
            >((after, ProgressModel::Complete(infos)))
            &&& infos.len() == replay.transactions.len()
            &&& infos.take(replay.completed.len() as int) == replay.completed
            &&& forall|i: int|
                replay.completed.len() <= i < infos.len() ==> {
                    &&& (#[trigger] infos[i]).fee == charges[i]
                    &&& shows_committed(
                        replay.transactions[i],
                        replay.sequencer,
                        replay.selector,
                        chain.receipts[replay.transactions[i].tx_hash],
                        chain.executions[i],
                        infos[i],
                    )
                }
        }),
    decreases replay.transactions.len() - replay.completed.len(),
{
    let current = replay.completed.len() as int;
    let transaction = replay.transactions[current];
    let charge = charges[current];
    let (after, progress, shown) = law_transaction_is_replayed::<E>(chain, storage, replay, charge);
    let count = requests_for(transaction, replay.sequencer, chain.executions[current], charge);
    match progress {
        ProgressModel::Complete(infos) => {
            assert(infos.take(current) =~= replay.completed);
            (count, after, infos)
        },
        ProgressModel::Pending(next) => {
            let (more, last, infos) = lemma_rest_is_replayed::<E>(chain, after, next, charges);
            assert(carried_out::<E>(chain, storage, ProgressModel::Pending(replay), count + more)
                == carried_out::<E>(chain, after, progress, more));
            assert(infos.take(current + 1)[current] == shown);
            assert(infos.take(current) =~= infos.take(current + 1).take(current));
            assert(replay.completed.push(shown).take(current) =~= replay.completed);
            (count + more, last, infos)
        },
    }
}

/// A block whose transactions can be replayed is replayed: carrying out what the replay asks for
/// brings it to its end, with one execution for each transaction that has the transaction's charge
/// and shows what its receipt commits it to.
pub proof fn law_block_is_replayed<E>(
    chain: ChainModel,
    storage: Map<(nat, nat), nat>,
    transactions: Seq<ReplayTransaction>,
    sequencer: ContractAddress,
    selector: nat,
    charges: Seq<Fee>,
) -> (done: (nat, Map<(nat, nat), nat>, Seq<ExecutionModel>))
    requires
        forall|i: int|
            0 <= i < transactions.len() ==> replayable(
                #[trigger] transactions[i],
                sequencer,
                selector,
                chain,
                i,
                charges[i],
            ),
    ensures
        ({
            let (count, after, infos) = done;
            &&& carried_out::<E>(
                chain,
                storage,
                replay_start(transactions, sequencer, selector),
                count,
            ) == Ok::<(Map<(nat, nat), nat>, ProgressModel), ErrorModel<E>>(
                (after, ProgressModel::Complete(infos)),
            )
            &&& infos.len() == transactions.len()
            &&& forall|i: int|
                0 <= i < infos.len() ==> {
                    &&& (#[trigger] infos[i]).fee == charges[i]
                    &&& shows_committed(
                        transactions[i],
                        sequencer,
                        selector,
                        chain.receipts[transactions[i].tx_hash],
                        chain.executions[i],
                        infos[i],
                    )
                }
        }),
{
    match replay_start(transactions, sequencer, selector) {
        ProgressModel::Complete(infos) => (0, storage, infos),
        ProgressModel::Pending(replay) => lemma_rest_is_replayed::<E>(
            chain,
            storage,
            replay,
            charges,
        ),
    }
}

} // verus!

//! What a replay amounts to as a whole.
use vstd::prelude::*;

use crate::balance::{
    pending_request, reconciliation_step, ReconciliationModel, ReplyModel, RequestModel, StageModel,
};
use crate::balance_laws::{
    change, law_reconciled_balances, requests_left, settled, storage_after, storage_reply, stored_apart,
    stored_balance,
};
use crate::felt::ContractAddress;
use crate::receipt::{
    emitted, law_charge_is_one_transfer, law_one_transfer_is_the_charge, recorded_charge,
    says_fee_was_moved, EmittedModel, Fee, GasVector,
};
use crate::replay::{
    committed_charge, completed_with, current_transaction, executions, progress_outcome,
    receipt_reconciliation, reconciled_execution, replay_failure, replay_request, replay_start,
    replay_step, retraced, with_receipt, BlockProcessingError, CommittedReceipt, ErrorModel,
    ExecutionInfo, ExecutionModel, PhaseModel, ProgressModel, ReceiptModel, ReplayModel,
    ReplayProgress, ReplayReply, ReplayReplyModel, ReplayRequest, ReplayRequestModel,
    ReplayTransaction, TransactionKind, UnsettledModel,
};
use crate::text::decimal;
use crate::trace::{calldata_moves, trace_outcome, CallModel};
use crate::trace_laws::{
    events_rewritten, law_reconciled_trace_keeps_the_rest, law_reconciled_trace_moves_committed_fee,
    law_trace_is_refused_with_what_it_has, times_moved,
};

verus! {

/// Whether a replay of these transactions can have come to this: while it waits, at least one
/// transaction is left; at its end there is one execution for each.
pub open spec fn consistent(
    progress: ProgressModel,
    transactions: Seq<ReplayTransaction>,
    sequencer: ContractAddress,
    selector: nat,
) -> bool {
    match progress {
        ProgressModel::Pending(replay) => {
            &&& replay.transactions == transactions
            &&& replay.sequencer == sequencer
            &&& replay.selector == selector
            &&& replay.completed.len() < transactions.len()
        },
        ProgressModel::Complete(infos) => infos.len() == transactions.len(),
    }
}

/// The executions that a replay has completed.
pub open spec fn completed_by(progress: ProgressModel) -> Seq<ExecutionModel> {
    match progress {
        ProgressModel::Pending(replay) => replay.completed,
        ProgressModel::Complete(infos) => infos,
    }
}

/// A reply changes neither the block nor what was completed; at most it completes the current
/// transaction.
pub proof fn law_step_keeps_what_was_completed<E>(replay: ReplayModel, reply: ReplayReplyModel<E>)
    requires
        replay.completed.len() < replay.transactions.len(),
    ensures
        replay_step(replay, reply) matches Ok(progress) ==> {
            &&& consistent(progress, replay.transactions, replay.sequencer, replay.selector)
            &&& completed_by(progress) == replay.completed || completed_by(progress)
                == replay.completed.push(completed_by(progress).last())
        },
{
}

/// What a sequence of replies leads to, from where a replay is.
pub open spec fn replayed<E>(progress: ProgressModel, replies: Seq<ReplayReplyModel<E>>) -> Result<
    ProgressModel,
    ErrorModel<E>,
>
    decreases replies.len(),
{
    if replies.len() == 0 {
        Ok(progress)
    } else {
        match replayed(progress, replies.drop_last()) {
            Err(error) => Err(error),
            Ok(ProgressModel::Complete(infos)) => Ok(ProgressModel::Complete(infos)),
            Ok(ProgressModel::Pending(replay)) => replay_step(replay, replies.last()),
        }
    }
}

/// Whatever is replied, a replay that comes to its end has one execution for each transaction, and
/// one that has not come to its end asks for the transaction after those it has completed.
pub proof fn law_replay_covers_the_block<E>(
    transactions: Seq<ReplayTransaction>,
    sequencer: ContractAddress,
    selector: nat,
    replies: Seq<ReplayReplyModel<E>>,
)
    ensures
        replayed(replay_start(transactions, sequencer, selector), replies) matches Ok(progress)
            ==> {
            &&& consistent(progress, transactions, sequencer, selector)
            &&& progress matches ProgressModel::Pending(replay) ==> {
                &&& replay_request(replay) matches ReplayRequestModel::FindReceipt { tx_hash }
                    ==> tx_hash == transactions[replay.completed.len() as int].tx_hash
                &&& replay_request(replay) matches ReplayRequestModel::Execute { index } ==> index
                    == replay.completed.len()
            }
        },
    decreases replies.len(),
{
    if replies.len() > 0 {
        law_replay_covers_the_block(transactions, sequencer, selector, replies.drop_last());
        if let Ok(ProgressModel::Pending(replay)) = replayed(
            replay_start(transactions, sequencer, selector),
            replies.drop_last(),
        ) {
            law_step_keeps_what_was_completed(replay, replies.last());
        }
    }
}

/// How many answers are left until the current transaction is completed.
pub open spec fn answers_left<E>(outcome: Result<ProgressModel, ErrorModel<E>>) -> nat {
    match outcome {
        Ok(ProgressModel::Pending(replay)) => match replay.phase {
            PhaseModel::BlockState(unsettled) => requests_left(Some(unsettled.reconciliation)) + 1,
            PhaseModel::Balances(unsettled) => requests_left(Some(unsettled.reconciliation)),
            _ => 0,
        },
        _ => 0,
    }
}

/// What comes of the current transaction where there is a state, and the fee token's storage
/// answers every request in it: the storage, and where the replay then is.
pub open spec fn answered<E>(
    storage: Map<nat, nat>,
    outcome: Result<ProgressModel, ErrorModel<E>>,
) -> Result<(Map<nat, nat>, ProgressModel), ErrorModel<E>>
    decreases answers_left(outcome),
{
    match outcome {
        Err(error) => Err(error),
        Ok(ProgressModel::Complete(infos)) => Ok((storage, ProgressModel::Complete(infos))),
        Ok(ProgressModel::Pending(replay)) => match replay.phase {
            PhaseModel::BlockState(_) => answered(
                storage,
                replay_step(replay, ReplayReplyModel::BlockState(true)),
            ),
            PhaseModel::Balances(unsettled) => {
                let request = pending_request(unsettled.reconciliation);
                answered(
                    storage_after(storage, request),
                    replay_step(
                        replay,
                        ReplayReplyModel::Storage(storage_reply(storage, request)),
                    ),
                )
            },
            _ => Ok((storage, ProgressModel::Pending(replay))),
        },
    }
}

/// Answering a replay's requests settles its reconciliation, and then completes the transaction.
proof fn lemma_answered_settles<E>(
    storage: Map<nat, nat>,
    replay: ReplayModel,
    unsettled: UnsettledModel,
)
    requires
        replay.phase == PhaseModel::Balances(unsettled),
    ensures
        answered::<E>(storage, Ok(ProgressModel::Pending(replay))) == (match settled(
            storage,
            Some(unsettled.reconciliation),
        ) {
            Err(reason) => Err(replay_failure::<E>(replay, reason)),
            Ok(after) => Ok(
                (
                    after,
                    completed_with(
                        replay,
                        with_receipt(unsettled.info, unsettled.charge, unsettled.gas),
                    ),
                ),
            ),
        }),
    decreases requests_left(Some(unsettled.reconciliation)),
{
    reveal_with_fuel(answered, 2);
    reveal_with_fuel(settled, 2);
    let request = pending_request(unsettled.reconciliation);
    let reply = storage_reply(storage, request);
    if let Ok(Some(reconciliation)) = reconciliation_step(unsettled.reconciliation, reply) {
        let next = UnsettledModel { reconciliation, ..unsettled };
        lemma_answered_settles::<E>(
            storage_after(storage, request),
            ReplayModel { phase: PhaseModel::Balances(next), ..replay },
            next,
        );
    }
}

/// An executed transaction is completed exactly where its charge is on record, its execution can be
/// reconciled with it, and its balances can be settled. Completed, it shows what was committed for
/// it. Its receipt has the
/// committed charge and the committed gas; where another charge had been calculated, the trace of
/// the fee transfer moves the committed one, and so do the balances of the sender and of the
/// sequencer, unless the sender is the sequencer. All of this has happened when the replay turns to
/// the next transaction.
pub proof fn law_completed_transaction_is_reconciled<E>(
    storage: Map<nat, nat>,
    replay: ReplayModel,
    receipt_fee: Fee,
    gas: GasVector,
    events: Seq<EmittedModel>,
    info: ExecutionModel,
)
    requires
        replay.phase == (PhaseModel::Execution { receipt_fee, gas, events }),
        current_transaction(replay).kind matches TransactionKind::Account { sender_address, .. }
            ==> sender_address == replay.sequencer || stored_apart(
            sender_address,
            replay.sequencer,
        ),
    ensures
        ({
            let transaction = current_transaction(replay);
            let charged = committed_charge(
                transaction,
                replay.sequencer,
                replay.selector,
                receipt_fee,
                events,
            );
            let outcome = replay_step::<E>(replay, ReplayReplyModel::Executed(Some(Ok(info))));
            &&& answered(storage, outcome) is Ok <==> (match charged {
                Err(_) => false,
                Ok(charge) => match receipt_reconciliation(
                    transaction,
                    replay.sequencer,
                    replay.selector,
                    info,
                    charge,
                ) {
                    Err(_) => false,
                    Ok(plan) => settled(storage, plan) is Ok,
                },
            })
            &&& answered(storage, outcome) matches Ok((after, progress)) ==> {
                &&& charged is Ok
                &&& progress == completed_with(
                    replay,
                    with_receipt(
                        retraced(transaction, replay.selector, info, charged->Ok_0),
                        charged->Ok_0,
                        gas,
                    ),
                )
                &&& info.fee != charged->Ok_0 ==> {
                    &&& transaction.kind is Account
                    &&& retraced(
                        transaction,
                        replay.selector,
                        info,
                        charged->Ok_0,
                    ).fee_transfer matches Some(call) && calldata_moves(
                        call.calldata,
                        charged->Ok_0.0 as nat,
                    )
                }
                &&& match transaction.kind {
                    TransactionKind::Account { sender_address, .. } if sender_address
                        != replay.sequencer => {
                        &&& stored_balance(after, sender_address) == stored_balance(
                            storage,
                            sender_address,
                        ) + info.fee.0 - charged->Ok_0.0
                        &&& stored_balance(after, replay.sequencer) == stored_balance(
                            storage,
                            replay.sequencer,
                        ) - info.fee.0 + charged->Ok_0.0
                    },
                    _ => after == storage,
                }
            }
        }),
{
    let transaction = current_transaction(replay);
    reveal_with_fuel(answered, 2);
    if let Ok(charge) = committed_charge(
        transaction,
        replay.sequencer,
        replay.selector,
        receipt_fee,
        events,
    ) {
        if info.fee != charge && info.fee_transfer is Some {
            if receipt_reconciliation(
                transaction,
                replay.sequencer,
                replay.selector,
                info,
                charge,
            ) is Ok {
                law_reconciled_trace_moves_committed_fee(
                    info.fee_transfer->0,
                    replay.selector,
                    info.fee.0 as nat,
                    charge.0 as nat,
                );
            }
        }
        if let Ok(Some(reconciliation)) = receipt_reconciliation(
            transaction,
            replay.sequencer,
            replay.selector,
            info,
            charge,
        ) {
            let sender = transaction.kind->sender_address;
            let unsettled = UnsettledModel {
                info: retraced(transaction, replay.selector, info, charge),
                charge,
                gas,
                fee_token: transaction.kind->fee_token_address,
                reconciliation,
            };
            lemma_answered_settles::<E>(
                storage,
                ReplayModel { phase: PhaseModel::Balances(unsettled), ..replay },
                unsettled,
            );
            law_reconciled_balances(storage, sender, replay.sequencer, info.fee, charge);
        }
    }
}

/// What an account was charged is not read off the receipt's fee, which may differ from it.
pub proof fn law_receipt_fee_is_not_the_charge(
    transaction: ReplayTransaction,
    sequencer: ContractAddress,
    selector: nat,
    receipt_fee: Fee,
    other_fee: Fee,
    events: Seq<EmittedModel>,
)
    requires
        transaction.kind is Account,
    ensures
        committed_charge(transaction, sequencer, selector, receipt_fee, events)
            == committed_charge(transaction, sequencer, selector, other_fee, events),
{
}

/// A replay that fails on a committed fee names the transaction that it was at.
pub proof fn law_failure_names_the_transaction<E>(replay: ReplayModel, reply: ReplayReplyModel<E>)
    ensures
        replay_step(replay, reply) matches Err(
            ErrorModel::CommittedFeeReplay { tx_hash, reason },
        ) ==> tx_hash == current_transaction(replay).tx_hash,
{
}

/// Where the calculated charge is the committed one, the transaction is completed at once: its
/// receipt gets the committed gas, and nothing else changes.
pub proof fn law_agreeing_charge_leaves_the_rest<E>(
    replay: ReplayModel,
    receipt_fee: Fee,
    gas: GasVector,
    events: Seq<EmittedModel>,
    info: ExecutionModel,
)
    requires
        replay.phase == (PhaseModel::Execution { receipt_fee, gas, events }),
        committed_charge(
            current_transaction(replay),
            replay.sequencer,
            replay.selector,
            receipt_fee,
            events,
        ) == Ok::<Fee, Seq<char>>(info.fee),
    ensures
        replay_step::<E>(replay, ReplayReplyModel::Executed(Some(Ok(info)))) == Ok::<
            ProgressModel,
            ErrorModel<E>,
        >(completed_with(replay, ExecutionModel { gas, ..info })),
{
}

/// A sender that is the sequencer pays itself: its trace is reconciled, and no balance is touched.
pub proof fn law_sequencer_pays_itself<E>(
    replay: ReplayModel,
    receipt_fee: Fee,
    gas: GasVector,
    events: Seq<EmittedModel>,
    info: ExecutionModel,
    charge: Fee,
)
    requires
        replay.phase == (PhaseModel::Execution { receipt_fee, gas, events }),
        committed_charge(
            current_transaction(replay),
            replay.sequencer,
            replay.selector,
            receipt_fee,
            events,
        ) == Ok::<Fee, Seq<char>>(charge),
        current_transaction(replay).kind matches TransactionKind::Account { sender_address, .. }
            && sender_address == replay.sequencer,
        receipt_reconciliation(
            current_transaction(replay),
            replay.sequencer,
            replay.selector,
            info,
            charge,
        ) is Ok,
    ensures
        replay_step::<E>(replay, ReplayReplyModel::Executed(Some(Ok(info)))) == Ok::<
            ProgressModel,
            ErrorModel<E>,
        >(
            completed_with(
                replay,
                with_receipt(
                    retraced(current_transaction(replay), replay.selector, info, charge),
                    charge,
                    gas,
                ),
            ),
        ),
{
}

/// Whether the calldata of a call moves exactly `fee`, and exactly one event of it and of the calls
/// below it says so.
pub open spec fn moves_once(call: CallModel, selector: nat, fee: nat) -> bool {
    &&& call.calldata.len() == 3
    &&& call.calldata[1] == fee
    &&& call.calldata[2] == 0
    &&& times_moved(call, selector, fee) == 1
}

/// Whether `after` is `before` with `to` in place of `from`: in the calldata, which keeps its
/// recipient, and in the events.
pub open spec fn transfer_rewritten(
    before: CallModel,
    after: CallModel,
    selector: nat,
    from: nat,
    to: nat,
) -> bool {
    &&& after.calldata.len() == before.calldata.len() == 3
    &&& after.calldata[0] == before.calldata[0]
    &&& after.calldata[1] == to
    &&& after.calldata[2] == before.calldata[2] == 0
    &&& events_rewritten(before, after, selector, from, to)
}

/// Whether a plan gives the sender what was calculated and takes what was committed, and does the
/// reverse with the sequencer.
pub open spec fn plan_between(
    plan: ReconciliationModel,
    sender: ContractAddress,
    sequencer: ContractAddress,
    calculated: Fee,
    committed: Fee,
) -> bool {
    &&& plan.stage is Read
    &&& plan.current.owner == sender
    &&& change(plan.current.amount, plan.current.increase) == calculated.0 - committed.0
    &&& plan.rest matches Some(rest) && rest.owner == sequencer && change(
        rest.amount,
        rest.increase,
    ) == committed.0 - calculated.0
}

/// Where an account pays, and its fee transfer moves the calculated fee once, the execution can be
/// reconciled with every charge, above or below that fee. Balances need nothing where the charges
/// agree or the sender is the sequencer, and otherwise the difference.
pub proof fn law_every_charge_can_be_reconciled(
    transaction: ReplayTransaction,
    sequencer: ContractAddress,
    selector: nat,
    info: ExecutionModel,
    charge: Fee,
    sender: ContractAddress,
    fee_token: ContractAddress,
)
    requires
        transaction.kind == (TransactionKind::Account {
            sender_address: sender,
            fee_token_address: fee_token,
        }),
        info.fee_transfer matches Some(call) && moves_once(call, selector, info.fee.0 as nat),
    ensures
        match receipt_reconciliation(transaction, sequencer, selector, info, charge) {
            Ok(None) => info.fee.0 == charge.0 || sender == sequencer,
            Ok(Some(plan)) => {
                &&& info.fee.0 != charge.0
                &&& sender != sequencer
                &&& plan_between(plan, sender, sequencer, info.fee, charge)
            },
            Err(_) => false,
        },
{
    law_trace_is_refused_with_what_it_has(info.fee_transfer->0, selector, info.fee.0 as nat);
}

/// Equal charges need no reconciliation. Other charges are refused where no account pays, where the
/// fee transfer is absent, and where its trace does not move the calculated fee once, each for its
/// own reason.
pub proof fn law_irreconcilable_charge_is_refused(
    transaction: ReplayTransaction,
    sequencer: ContractAddress,
    selector: nat,
    info: ExecutionModel,
    charge: Fee,
)
    ensures
        ({
            let outcome = receipt_reconciliation(transaction, sequencer, selector, info, charge);
            let calculated = info.fee.0 as nat;
            if calculated == charge.0 {
                outcome == Ok::<Option<ReconciliationModel>, Seq<char>>(None)
            } else {
                match (transaction.kind, info.fee_transfer) {
                    (TransactionKind::NonAccount, _) => outcome == Err::<
                        Option<ReconciliationModel>,
                        Seq<char>,
                    >(
                        "non-account transaction charge differs: calculated="@ + decimal(calculated)
                            + ", committed="@ + decimal(charge.0 as nat),
                    ),
                    (TransactionKind::Account { .. }, None) => outcome == Err::<
                        Option<ReconciliationModel>,
                        Seq<char>,
                    >(
                        "fee transfer is absent while calculated charge "@ + decimal(calculated)
                            + " differs from committed charge "@ + decimal(charge.0 as nat),
                    ),
                    (TransactionKind::Account { .. }, Some(call)) => {
                        &&& outcome is Ok <==> moves_once(call, selector, calculated)
                        &&& outcome matches Err(reason) ==> trace_outcome(
                            call,
                            selector,
                            calculated,
                        ) == Err::<(), Seq<char>>(reason)
                    },
                }
            }
        }),
{
    if let Some(call) = info.fee_transfer {
        law_trace_is_refused_with_what_it_has(call, selector, info.fee.0 as nat);
    }
}

/// After a reconciliation the fee transfer is there exactly where it was. It is rewritten to the
/// charge where an account pays, the charges differ and its calldata moves the calculated fee, and
/// is what it was otherwise.
pub proof fn law_fee_transfer_is_rewritten_or_kept(
    transaction: ReplayTransaction,
    sequencer: ContractAddress,
    selector: nat,
    info: ExecutionModel,
    charge: Fee,
    gas: GasVector,
)
    ensures
        match (
            info.fee_transfer,
            reconciled_execution(
                transaction,
                sequencer,
                selector,
                info,
                charge,
                gas,
            ).fee_transfer,
        ) {
            (None, None) => true,
            (Some(before), Some(after)) => if transaction.kind is Account && info.fee.0 != charge.0
                && before.calldata.len() == 3 && before.calldata[1] == info.fee.0
                && before.calldata[2] == 0 {
                transfer_rewritten(
                    before,
                    after,
                    selector,
                    info.fee.0 as nat,
                    charge.0 as nat,
                )
            } else {
                after == before
            },
            _ => false,
        },
{
    if let Some(call) = info.fee_transfer {
        if call.calldata.len() == 3 && call.calldata[1] == info.fee.0 && call.calldata[2] == 0 {
            law_reconciled_trace_keeps_the_rest(
                call,
                selector,
                info.fee.0 as nat,
                charge.0 as nat,
            );
        }
    }
}

/// Whether a replay has gone on to this phase, and nothing else about it has changed.
pub open spec fn goes_on_in(replay: ReplayModel, progress: ProgressModel, phase: PhaseModel) -> bool {
    progress matches ProgressModel::Pending(next) && {
        &&& next.transactions == replay.transactions
        &&& next.sequencer == replay.sequencer
        &&& next.selector == replay.selector
        &&& next.completed == replay.completed
        &&& next.phase == phase
    }
}

/// Whether a replay has completed its current transaction with this execution, and either looks for
/// the next transaction's receipt or, after the last one, has come to its end.
pub open spec fn turns_to_next(
    replay: ReplayModel,
    progress: ProgressModel,
    info: ExecutionModel,
) -> bool {
    match progress {
        ProgressModel::Pending(next) => {
            &&& replay.completed.len() + 1 < replay.transactions.len()
            &&& next.transactions == replay.transactions
            &&& next.sequencer == replay.sequencer
            &&& next.selector == replay.selector
            &&& next.completed == replay.completed.push(info)
            &&& next.phase is Receipt
        },
        ProgressModel::Complete(infos) => {
            &&& replay.completed.len() + 1 >= replay.transactions.len()
            &&& infos == replay.completed.push(info)
        },
    }
}

/// Whether a replay has failed on the committed fee of its current transaction for this reason.
pub open spec fn failed_for<E>(
    replay: ReplayModel,
    outcome: Result<ProgressModel, ErrorModel<E>>,
    reason: Seq<char>,
) -> bool {
    outcome matches Err(ErrorModel::CommittedFeeReplay { tx_hash, reason: given }) && tx_hash
        == replay.transactions[replay.completed.len() as int].tx_hash && given == reason
}

/// A replay starts with no transaction completed, and looks for the first one's receipt; a block
/// without transactions is complete.
pub proof fn law_replay_starts_at_the_first_transaction(
    transactions: Seq<ReplayTransaction>,
    sequencer: ContractAddress,
    selector: nat,
)
    ensures
        match replay_start(transactions, sequencer, selector) {
            ProgressModel::Complete(infos) => transactions.len() == 0 && infos.len() == 0,
            ProgressModel::Pending(replay) => {
                &&& transactions.len() > 0
                &&& replay.transactions == transactions
                &&& replay.sequencer == sequencer
                &&& replay.selector == selector
                &&& replay.completed.len() == 0
                &&& replay.phase is Receipt
            },
        },
{
}

/// What a replay asks for is what it waits for: the receipt or the execution of the transaction
/// after those that are completed, whether there is a state, or what its reconciliation needs done
/// in the fee token's storage.
pub proof fn law_request_is_what_is_waited_for(replay: ReplayModel)
    ensures
        match (replay.phase, replay_request(replay)) {
            (PhaseModel::Receipt, ReplayRequestModel::FindReceipt { tx_hash }) => tx_hash
                == replay.transactions[replay.completed.len() as int].tx_hash,
            (PhaseModel::Execution { .. }, ReplayRequestModel::Execute { index }) => index
                == replay.completed.len(),
            (PhaseModel::BlockState(_), ReplayRequestModel::CheckBlockState) => true,
            (
                PhaseModel::Balances(unsettled),
                ReplayRequestModel::Storage { fee_token, request },
            ) => fee_token == unsettled.fee_token && match (
                unsettled.reconciliation.stage,
                request,
            ) {
                (StageModel::Read, RequestModel::Read { owner }) => owner
                    == unsettled.reconciliation.current.owner,
                (StageModel::WriteLow(writes), RequestModel::Write { key, value }) => key
                    == writes.low_key && value == writes.low,
                (StageModel::WriteHigh(writes), RequestModel::Write { key, value }) => key
                    == writes.high_key && value == writes.high,
                _ => false,
            },
            _ => false,
        },
{
}

/// A receipt with a fee is kept, whole, for the execution; without a fee, and without a receipt, the
/// replay fails.
pub proof fn law_receipt_is_kept_for_the_execution<E>(replay: ReplayModel, receipt: ReceiptModel)
    requires
        replay.phase is Receipt,
    ensures
        failed_for(
            replay,
            replay_step::<E>(replay, ReplayReplyModel::Receipt(None)),
            "transaction receipt is missing"@,
        ),
        match receipt.actual_fee {
            Err(reason) => failed_for(
                replay,
                replay_step::<E>(replay, ReplayReplyModel::Receipt(Some(receipt))),
                reason,
            ),
            Ok(fee) => replay_step::<E>(
                replay,
                ReplayReplyModel::Receipt(Some(receipt)),
            ) matches Ok(progress) && goes_on_in(
                replay,
                progress,
                PhaseModel::Execution {
                    receipt_fee: fee,
                    gas: receipt.gas,
                    events: receipt.events,
                },
            ),
        },
{
}

/// An execution that gave nothing fails the replay, and an error of execution is handed on.
pub proof fn law_failed_execution_is_handed_on<E>(replay: ReplayModel, error: E)
    requires
        replay.phase is Execution,
    ensures
        failed_for(
            replay,
            replay_step::<E>(replay, ReplayReplyModel::Executed(None)),
            "Blockifier returned no execution result"@,
        ),
        replay_step(replay, ReplayReplyModel::Executed(Some(Err(error)))) == Err::<
            ProgressModel,
            ErrorModel<E>,
        >(ErrorModel::Execution(error)),
{
}

/// The charge that an execution is reconciled with: the receipt's fee where no account pays, and
/// what its events record of the fee token, the sender and the sequencer where one does.
pub open spec fn charged(
    transaction: ReplayTransaction,
    sequencer: ContractAddress,
    selector: nat,
    receipt_fee: Fee,
    events: Seq<EmittedModel>,
    charge: Fee,
) -> bool {
    match transaction.kind {
        TransactionKind::NonAccount => charge == receipt_fee,
        TransactionKind::Account { sender_address, fee_token_address } => exists|i: int|
            0 <= i < events.len() && #[trigger] events[i].data[2] == charge.0 as nat
                && only_transfer(
                events,
                i,
                selector,
                fee_token_address@,
                sender_address@,
                sequencer@,
            ),
    }
}

/// Whether the event at `i`, and no other, says that the fee token moved the fee from the sender to
/// the sequencer.
pub open spec fn only_transfer(
    events: Seq<EmittedModel>,
    i: int,
    selector: nat,
    fee_token: nat,
    sender: nat,
    sequencer: nat,
) -> bool {
    forall|j: int|
        0 <= j < events.len() ==> (says_fee_was_moved(
            #[trigger] events[j],
            selector,
            fee_token,
            sender,
            sequencer,
        ) <==> j == i)
}

/// The committed charge is the one that an execution is reconciled with.
pub proof fn law_committed_charge_is_what_was_charged(
    transaction: ReplayTransaction,
    sequencer: ContractAddress,
    selector: nat,
    receipt_fee: Fee,
    events: Seq<EmittedModel>,
    charge: Fee,
)
    ensures
        charged(transaction, sequencer, selector, receipt_fee, events, charge) <==> committed_charge(
            transaction,
            sequencer,
            selector,
            receipt_fee,
            events,
        ) == Ok::<Fee, Seq<char>>(charge),
{
    if let TransactionKind::Account { sender_address, fee_token_address } = transaction.kind {
        let recorded = recorded_charge(
            events,
            selector,
            fee_token_address@,
            sender_address@,
            sequencer@,
        );
        if charged(transaction, sequencer, selector, receipt_fee, events, charge) {
            let i = choose|i: int|
                0 <= i < events.len() && #[trigger] events[i].data[2] == charge.0 as nat
                    && only_transfer(
                    events,
                    i,
                    selector,
                    fee_token_address@,
                    sender_address@,
                    sequencer@,
                );
            law_one_transfer_is_the_charge(
                events,
                selector,
                fee_token_address@,
                sender_address@,
                sequencer@,
                i,
            );
        }
        if recorded == Ok::<Fee, Seq<char>>(charge) {
            let i = law_charge_is_one_transfer(
                events,
                selector,
                fee_token_address@,
                sender_address@,
                sequencer@,
            );
            assert(events[i].data[2] == charge.0 as nat);
            assert(only_transfer(
                events,
                i,
                selector,
                fee_token_address@,
                sender_address@,
                sequencer@,
            ));
        }
    }
}

/// An execution whose account has no charge on record fails the replay for the reason that the
/// record gives.
pub proof fn law_unrecorded_charge_fails_the_replay<E>(
    replay: ReplayModel,
    receipt_fee: Fee,
    gas: GasVector,
    events: Seq<EmittedModel>,
    info: ExecutionModel,
    sender: ContractAddress,
    fee_token: ContractAddress,
    reason: Seq<char>,
)
    requires
        replay.phase == (PhaseModel::Execution { receipt_fee, gas, events }),
        replay.transactions[replay.completed.len() as int].kind == (TransactionKind::Account {
            sender_address: sender,
            fee_token_address: fee_token,
        }),
        recorded_charge(events, replay.selector, fee_token@, sender@, replay.sequencer@) == Err::<
            Fee,
            Seq<char>,
        >(reason),
    ensures
        failed_for(
            replay,
            replay_step::<E>(replay, ReplayReplyModel::Executed(Some(Ok(info)))),
            reason,
        ),
{
}

/// An execution leads to what its reconciliation with the charge leads to. It fails the replay for
/// the same reason; it completes the transaction with the charge and the receipt's gas where
/// balances need nothing; and otherwise it is held, with the charge and the gas that execution gave,
/// until they are reconciled.
pub proof fn law_execution_is_reconciled_with_the_charge<E>(
    replay: ReplayModel,
    receipt_fee: Fee,
    gas: GasVector,
    events: Seq<EmittedModel>,
    info: ExecutionModel,
    charge: Fee,
)
    requires
        replay.phase == (PhaseModel::Execution { receipt_fee, gas, events }),
        charged(
            replay.transactions[replay.completed.len() as int],
            replay.sequencer,
            replay.selector,
            receipt_fee,
            events,
            charge,
        ),
    ensures
        ({
            let transaction = replay.transactions[replay.completed.len() as int];
            let reconciled = reconciled_execution(
                transaction,
                replay.sequencer,
                replay.selector,
                info,
                charge,
                gas,
            );
            let outcome = replay_step::<E>(replay, ReplayReplyModel::Executed(Some(Ok(info))));
            match receipt_reconciliation(
                transaction,
                replay.sequencer,
                replay.selector,
                info,
                charge,
            ) {
                Err(reason) => failed_for(replay, outcome, reason),
                Ok(None) => {
                    &&& reconciled.fee == charge
                    &&& reconciled.gas == gas
                    &&& outcome matches Ok(progress) && turns_to_next(replay, progress, reconciled)
                },
                Ok(Some(plan)) => {
                    &&& reconciled.fee == info.fee
                    &&& reconciled.gas == info.gas
                    &&& transaction.kind matches TransactionKind::Account {
                        fee_token_address,
                        sender_address,
                    } && outcome matches Ok(progress) && goes_on_in(
                        replay,
                        progress,
                        PhaseModel::BlockState(
                            UnsettledModel {
                                info: reconciled,
                                charge,
                                gas,
                                fee_token: fee_token_address,
                                reconciliation: plan,
                            },
                        ),
                    )
                },
            }
        }),
{
    law_committed_charge_is_what_was_charged(
        replay.transactions[replay.completed.len() as int],
        replay.sequencer,
        replay.selector,
        receipt_fee,
        events,
        charge,
    );
}

/// Balances are reconciled in the state that execution left; without one the replay fails.
pub proof fn law_balances_wait_for_the_state<E>(replay: ReplayModel, unsettled: UnsettledModel)
    requires
        replay.phase == PhaseModel::BlockState(unsettled),
    ensures
        replay_step::<E>(replay, ReplayReplyModel::BlockState(true)) matches Ok(progress)
            && goes_on_in(replay, progress, PhaseModel::Balances(unsettled)),
        replay_step::<E>(replay, ReplayReplyModel::BlockState(false)) == Err::<
            ProgressModel,
            ErrorModel<E>,
        >(ErrorModel::MissingBlockStateAfterExecution),
{
}

/// A reply about storage goes to the reconciliation. It fails the replay for the reason that the
/// reconciliation gives, keeps what is held while something is left to do, and completes the
/// transaction with the held charge, gas and trace once nothing is.
pub proof fn law_storage_replies_go_to_the_reconciliation<E>(
    replay: ReplayModel,
    unsettled: UnsettledModel,
    reply: ReplyModel,
)
    requires
        replay.phase == PhaseModel::Balances(unsettled),
    ensures
        ({
            let outcome = replay_step::<E>(replay, ReplayReplyModel::Storage(reply));
            match reconciliation_step(unsettled.reconciliation, reply) {
                Err(reason) => failed_for(replay, outcome, reason),
                Ok(Some(reconciliation)) => outcome matches Ok(progress) && goes_on_in(
                    replay,
                    progress,
                    PhaseModel::Balances(
                        UnsettledModel {
                            info: unsettled.info,
                            charge: unsettled.charge,
                            gas: unsettled.gas,
                            fee_token: unsettled.fee_token,
                            reconciliation,
                        },
                    ),
                ),
                Ok(None) => outcome matches Ok(progress) && turns_to_next(
                    replay,
                    progress,
                    ExecutionModel {
                        fee: unsettled.charge,
                        gas: unsettled.gas,
                        fee_transfer: unsettled.info.fee_transfer,
                    },
                ),
            }
        }),
{
}

/// A reply of another kind than the one that is waited for leaves a replay where it is.
pub proof fn law_unasked_reply_leaves_the_replay_waiting<E>(
    replay: ReplayModel,
    reply: ReplayReplyModel<E>,
)
    requires
        match reply {
            ReplayReplyModel::Receipt(_) => !(replay.phase is Receipt),
            ReplayReplyModel::Executed(_) => !(replay.phase is Execution),
            ReplayReplyModel::BlockState(_) => !(replay.phase is BlockState),
            ReplayReplyModel::Storage(_) => !(replay.phase is Balances),
        },
    ensures
        replay_step(replay, reply) == Ok::<ProgressModel, ErrorModel<E>>(
            ProgressModel::Pending(replay),
        ),
{
}

/// Executions and receipts are read field by field.
pub proof fn law_executions_and_receipts_are_read_as_they_are(
    info: ExecutionInfo,
    infos: Seq<ExecutionInfo>,
    receipt: CommittedReceipt,
)
    ensures
        info@.fee == info.fee,
        info@.gas == info.gas,
        match (info@.fee_transfer, info.fee_transfer_call_info) {
            (None, None) => true,
            (Some(read), Some(call_info)) => read == call_info@,
            _ => false,
        },
        executions(infos).len() == infos.len(),
        forall|i: int| 0 <= i < infos.len() ==> #[trigger] executions(infos)[i] == infos[i]@,
        receipt@.gas == receipt.gas,
        receipt@.events == emitted(receipt.events@),
        match (receipt@.actual_fee, receipt.actual_fee) {
            (Ok(read), Ok(fee)) => read == fee,
            (Err(read), Err(reason)) => read == reason@,
            _ => false,
        },
{
}

/// What a replay has come to, and why it failed, are read field by field.
pub proof fn law_outcomes_are_read_as_they_are<E>(
    outcome: Result<ReplayProgress, BlockProcessingError<E>>,
)
    ensures
        match (progress_outcome(outcome), outcome) {
            (
                Ok(ProgressModel::Pending(read)),
                Ok(ReplayProgress::Pending(replay)),
            ) => read == replay@,
            (
                Ok(ProgressModel::Complete(read)),
                Ok(ReplayProgress::Complete(infos)),
            ) => read == executions(infos@),
            (
                Err(ErrorModel::CommittedFeeReplay { tx_hash: read_hash, reason: read }),
                Err(BlockProcessingError::CommittedFeeReplay { tx_hash, reason }),
            ) => read_hash == tx_hash && read == reason@,
            (
                Err(ErrorModel::MissingBlockStateAfterExecution),
                Err(BlockProcessingError::MissingBlockStateAfterExecution),
            ) => true,
            (
                Err(ErrorModel::Execution(read)),
                Err(BlockProcessingError::Execution(error)),
            ) => read == error,
            _ => false,
        },
        match outcome {
            Ok(progress) => progress_outcome(outcome) == Ok::<ProgressModel, ErrorModel<E>>(
                progress@,
            ),
            Err(error) => progress_outcome(outcome) == Err::<ProgressModel, ErrorModel<E>>(error@),
        },
{
}

/// A replay's requests and the replies to them are read field by field.
pub proof fn law_replay_messages_are_read_as_they_are<E>(
    request: ReplayRequest,
    reply: ReplayReply<E>,
)
    ensures
        match (request@, request) {
            (
                ReplayRequestModel::FindReceipt { tx_hash: read },
                ReplayRequest::FindReceipt { tx_hash },
            ) => read == tx_hash,
            (ReplayRequestModel::Execute { index: read }, ReplayRequest::Execute { index }) => read
                == index,
            (ReplayRequestModel::CheckBlockState, ReplayRequest::CheckBlockState) => true,
            (
                ReplayRequestModel::Storage { fee_token, request: read },
                ReplayRequest::Storage { fee_token_address, request },
            ) => fee_token == fee_token_address && read == request@,
            _ => false,
        },
        match (reply@, reply) {
            (ReplayReplyModel::Receipt(None), ReplayReply::Receipt(None)) => true,
            (ReplayReplyModel::Receipt(Some(read)), ReplayReply::Receipt(Some(receipt))) => read
                == receipt@,
            (ReplayReplyModel::Executed(None), ReplayReply::Executed(None)) => true,
            (
                ReplayReplyModel::Executed(Some(Ok(read))),
                ReplayReply::Executed(Some(Ok(info))),
            ) => read == info@,
            (
                ReplayReplyModel::Executed(Some(Err(read))),
                ReplayReply::Executed(Some(Err(error))),
            ) => read == error,
            (ReplayReplyModel::BlockState(read), ReplayReply::BlockState(present)) => read
                == present,
            (ReplayReplyModel::Storage(read), ReplayReply::Storage(reply)) => read == reply@,
            _ => false,
        },
{
}

} // verus!

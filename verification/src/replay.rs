//! Replay of a block's transactions with the fees that were committed for them.
//!
//! A replay looks up each transaction's committed receipt, has the transaction executed, and
//! reconciles what execution gave with what was in fact charged, before it turns to the next
//! transaction. What it needs done, it asks for; what came of it, it is told.
use vstd::prelude::*;
use vstd::string::StringExecFns;

use crate::balance::{
    pending_request, planned_reconciliation, reconcile_fee_token_balances, reconciliation_outcome,
    reconciliation_step, BalanceReconciliation, BalanceReply, BalanceRequest, ReconciliationModel,
    ReplyModel, RequestModel,
};
use crate::felt::{
    selector_from_name, transfer_event_name, transfer_selector, ContractAddress, Felt,
};
use crate::receipt::{
    emitted, fee_transfer_amount, recorded_charge, EmittedModel, Event, Fee, GasVector,
};
use crate::text::{decimal, decimal_text, reasoned};
use crate::trace::{reconciled_trace, replace_fee_in_trace, trace_outcome, CallInfo, CallModel};

verus! {

/// Who pays for a transaction, and in which token.
#[derive(Clone, Copy, Debug, PartialEq, Eq, Structural)]
pub enum TransactionKind {
    /// A transaction that its sending account pays for.
    Account { sender_address: ContractAddress, fee_token_address: ContractAddress },
    /// A transaction that no account pays for.
    NonAccount,
}

/// A transaction of the block.
#[derive(Clone, Copy, Debug, PartialEq, Eq, Structural)]
pub struct ReplayTransaction {
    pub tx_hash: Felt,
    pub kind: TransactionKind,
}

/// What is read of an execution, and reconciled: the charge and the gas on its receipt, and the
/// trace of the fee transfer.
#[derive(Debug, PartialEq, Eq)]
pub struct ExecutionInfo {
    pub fee: Fee,
    pub gas: GasVector,
    pub fee_transfer_call_info: Option<CallInfo>,
}

/// The model of an execution.
pub struct ExecutionModel {
    pub fee: Fee,
    pub gas: GasVector,
    pub fee_transfer: Option<CallModel>,
}

impl View for ExecutionInfo {
    type V = ExecutionModel;

    open spec fn view(&self) -> ExecutionModel {
        ExecutionModel {
            fee: self.fee,
            gas: self.gas,
            fee_transfer: match self.fee_transfer_call_info {
                Some(call_info) => Some(call_info@),
                None => None,
            },
        }
    }
}

/// Why the charge of a transaction that no account pays for cannot be reconciled.
pub open spec fn non_account_reason(calculated: Fee, committed: Fee) -> Seq<char> {
    "non-account transaction charge differs: calculated="@ + decimal(calculated.0 as nat)
        + ", committed="@ + decimal(committed.0 as nat)
}

/// Why the charge of a transaction without a fee transfer cannot be reconciled.
pub open spec fn absent_transfer_reason(calculated: Fee, committed: Fee) -> Seq<char> {
    "fee transfer is absent while calculated charge "@ + decimal(calculated.0 as nat)
        + " differs from committed charge "@ + decimal(committed.0 as nat)
}

/// The execution once the trace of its fee transfer moves the committed charge. Only a charge that
/// differs from the calculated one, and that an account pays, is there to move.
pub open spec fn retraced(
    transaction: ReplayTransaction,
    selector: nat,
    info: ExecutionModel,
    charge: Fee,
) -> ExecutionModel {
    if info.fee != charge && transaction.kind is Account && info.fee_transfer is Some {
        ExecutionModel {
            fee_transfer: Some(
                reconciled_trace(
                    info.fee_transfer->0,
                    selector,
                    info.fee.0 as nat,
                    charge.0 as nat,
                ),
            ),
            ..info
        }
    } else {
        info
    }
}

/// What the balances need for an execution to agree with the committed charge, or why the
/// execution cannot be made to agree with it. A sender that is the sequencer pays itself.
pub open spec fn receipt_reconciliation(
    transaction: ReplayTransaction,
    sequencer: ContractAddress,
    selector: nat,
    info: ExecutionModel,
    charge: Fee,
) -> Result<Option<ReconciliationModel>, Seq<char>> {
    if info.fee == charge {
        Ok(None)
    } else {
        match (transaction.kind, info.fee_transfer) {
            (TransactionKind::NonAccount, _) => Err(non_account_reason(info.fee, charge)),
            (TransactionKind::Account { .. }, None) => Err(
                absent_transfer_reason(info.fee, charge),
            ),
            (TransactionKind::Account { sender_address, .. }, Some(call)) => match trace_outcome(
                call,
                selector,
                info.fee.0 as nat,
            ) {
                Err(reason) => Err(reason),
                Ok(_) => if sender_address == sequencer {
                    Ok(None)
                } else {
                    Ok(planned_reconciliation(sender_address, sequencer, info.fee, charge))
                },
            },
        }
    }
}

/// The execution with this charge and this gas on its receipt.
pub open spec fn with_receipt(info: ExecutionModel, charge: Fee, gas: GasVector) -> ExecutionModel {
    ExecutionModel { fee: charge, gas, fee_transfer: info.fee_transfer }
}

/// The execution after its reconciliation. Where nothing is left to do, its receipt shows the
/// committed charge and the committed gas. Where reconciliation fails, or balances are still to be
/// reconciled, the receipt is as execution left it, and at most the trace has changed.
pub open spec fn reconciled_execution(
    transaction: ReplayTransaction,
    sequencer: ContractAddress,
    selector: nat,
    info: ExecutionModel,
    charge: Fee,
    gas: GasVector,
) -> ExecutionModel {
    let traced = retraced(transaction, selector, info, charge);
    if receipt_reconciliation(transaction, sequencer, selector, info, charge) == Ok::<
        Option<ReconciliationModel>,
        Seq<char>,
    >(None) {
        with_receipt(traced, charge, gas)
    } else {
        traced
    }
}

/// Makes the trace of an execution's fee transfer move the committed charge, and says what the
/// balances need in order to agree with it. Where they need nothing, the receipt shows the committed
/// charge and the committed gas; otherwise it is to show them once the balances are reconciled.
pub fn reconcile_transaction_receipt(
    transaction: &ReplayTransaction,
    sequencer_address: ContractAddress,
    transfer_event_selector: Felt,
    execution_info: &mut ExecutionInfo,
    committed_charge: Fee,
    committed_gas: GasVector,
) -> (res: Result<Option<BalanceReconciliation>, String>)
    ensures
        final(execution_info)@ == reconciled_execution(
            *transaction,
            sequencer_address,
            transfer_event_selector@,
            old(execution_info)@,
            committed_charge,
            committed_gas,
        ),
        reconciliation_outcome(res) == receipt_reconciliation(
            *transaction,
            sequencer_address,
            transfer_event_selector@,
            old(execution_info)@,
            committed_charge,
        ),
{
    let calculated_fee = execution_info.fee;
    let mut reconciliation: Option<BalanceReconciliation> = None;
    if calculated_fee != committed_charge {
        let sender_address = match transaction.kind {
            TransactionKind::Account { sender_address, .. } => sender_address,
            TransactionKind::NonAccount => {
                return Err(
                    String::from_str("non-account transaction charge differs: calculated=").concat(
                        decimal_text(calculated_fee.0).as_str(),
                    ).concat(", committed=").concat(decimal_text(committed_charge.0).as_str()),
                );
            },
        };
        let replaced = match &mut execution_info.fee_transfer_call_info {
            Some(call_info) => replace_fee_in_trace(
                call_info,
                transfer_event_selector,
                calculated_fee,
                committed_charge,
            ),
            None => Err(
                String::from_str("fee transfer is absent while calculated charge ").concat(
                    decimal_text(calculated_fee.0).as_str(),
                ).concat(" differs from committed charge ").concat(
                    decimal_text(committed_charge.0).as_str(),
                ),
            ),
        };
        match replaced {
            Ok(_) => {
                if sender_address != sequencer_address {
                    reconciliation = reconcile_fee_token_balances(
                        sender_address,
                        sequencer_address,
                        calculated_fee,
                        committed_charge,
                    );
                }
            },
            Err(reason) => {
                return Err(reason);
            },
        }
    }
    if reconciliation.is_none() {
        execution_info.fee = committed_charge;
        execution_info.gas = committed_gas;
    }
    Ok(reconciliation)
}

/// A receipt that was committed for a transaction: its fee, or the text of the error for which it
/// has none, its gas, and its events.
#[derive(Debug)]
pub struct CommittedReceipt {
    pub actual_fee: Result<Fee, String>,
    pub gas: GasVector,
    pub events: Vec<Event>,
}

/// The model of a committed receipt.
pub struct ReceiptModel {
    pub actual_fee: Result<Fee, Seq<char>>,
    pub gas: GasVector,
    pub events: Seq<EmittedModel>,
}

impl View for CommittedReceipt {
    type V = ReceiptModel;

    open spec fn view(&self) -> ReceiptModel {
        ReceiptModel {
            actual_fee: reasoned(self.actual_fee),
            gas: self.gas,
            events: emitted(self.events@),
        }
    }
}

/// Why a replay ended before its last transaction.
#[derive(Debug)]
pub enum BlockProcessingError<E> {
    /// The committed fee of a transaction could not be replayed.
    CommittedFeeReplay { tx_hash: Felt, reason: String },
    /// Execution left no state to reconcile balances in.
    MissingBlockStateAfterExecution,
    /// Execution itself failed.
    Execution(E),
}

/// The model of an error.
pub enum ErrorModel<E> {
    CommittedFeeReplay { tx_hash: Felt, reason: Seq<char> },
    MissingBlockStateAfterExecution,
    Execution(E),
}

impl<E> View for BlockProcessingError<E> {
    type V = ErrorModel<E>;

    open spec fn view(&self) -> ErrorModel<E> {
        match *self {
            BlockProcessingError::CommittedFeeReplay { tx_hash, reason } => {
                ErrorModel::CommittedFeeReplay { tx_hash, reason: reason@ }
            },
            BlockProcessingError::MissingBlockStateAfterExecution => {
                ErrorModel::MissingBlockStateAfterExecution
            },
            BlockProcessingError::Execution(error) => ErrorModel::Execution(error),
        }
    }
}

/// The execution of the current transaction while its balances are reconciled, with the charge
/// and the gas that its receipt is to show after that.
#[derive(Debug)]
struct Unsettled {
    info: ExecutionInfo,
    charge: Fee,
    gas: GasVector,
    fee_token_address: ContractAddress,
    reconciliation: BalanceReconciliation,
}

/// The model of an execution whose balances are being reconciled.
pub struct UnsettledModel {
    pub info: ExecutionModel,
    pub charge: Fee,
    pub gas: GasVector,
    pub fee_token: ContractAddress,
    pub reconciliation: ReconciliationModel,
}

impl Unsettled {
    closed spec fn model(self) -> UnsettledModel {
        UnsettledModel {
            info: self.info@,
            charge: self.charge,
            gas: self.gas,
            fee_token: self.fee_token_address,
            reconciliation: self.reconciliation@,
        }
    }
}

/// What a replay is waiting for.
#[derive(Debug)]
enum Phase {
    /// The committed receipt of the current transaction.
    Receipt,
    /// The execution of the current transaction.
    Execution { receipt_fee: Fee, gas: GasVector, events: Vec<Event> },
    /// Whether there is a state to reconcile balances in.
    BlockState(Unsettled),
    /// A request in the fee token's storage.
    Balances(Unsettled),
}

/// The model of what a replay is waiting for.
pub enum PhaseModel {
    Receipt,
    Execution { receipt_fee: Fee, gas: GasVector, events: Seq<EmittedModel> },
    BlockState(UnsettledModel),
    Balances(UnsettledModel),
}

impl Phase {
    closed spec fn model(self) -> PhaseModel {
        match self {
            Phase::Receipt => PhaseModel::Receipt,
            Phase::Execution { receipt_fee, gas, events } => PhaseModel::Execution {
                receipt_fee,
                gas,
                events: emitted(events@),
            },
            Phase::BlockState(unsettled) => PhaseModel::BlockState(unsettled.model()),
            Phase::Balances(unsettled) => PhaseModel::Balances(unsettled.model()),
        }
    }
}

/// How far a replay has come in its block.
#[derive(Debug)]
struct Position {
    transactions: Vec<ReplayTransaction>,
    sequencer_address: ContractAddress,
    transfer_event_selector: Felt,
    completed: Vec<ExecutionInfo>,
}

/// A replay that waits for the answer to a request.
#[derive(Debug)]
pub struct Replay {
    position: Position,
    phase: Phase,
}

/// The model of a replay. The current transaction is the first that is not completed.
pub struct ReplayModel {
    pub transactions: Seq<ReplayTransaction>,
    pub sequencer: ContractAddress,
    pub selector: nat,
    pub completed: Seq<ExecutionModel>,
    pub phase: PhaseModel,
}

/// The models of executions.
pub open spec fn executions(infos: Seq<ExecutionInfo>) -> Seq<ExecutionModel> {
    infos.map_values(|info: ExecutionInfo| info@)
}

impl Position {
    /// There is a current transaction.
    #[verifier::type_invariant]
    spec fn has_current(self) -> bool {
        self.completed@.len() < self.transactions@.len()
    }

    /// The model of a replay at this position and in this phase.
    closed spec fn model(self, phase: PhaseModel) -> ReplayModel {
        ReplayModel {
            transactions: self.transactions@,
            sequencer: self.sequencer_address,
            selector: self.transfer_event_selector@,
            completed: executions(self.completed@),
            phase,
        }
    }
}

impl View for Replay {
    type V = ReplayModel;

    closed spec fn view(&self) -> ReplayModel {
        self.position.model(self.phase.model())
    }
}

/// What a replay has come to: it waits for an answer, or all transactions are completed.
#[derive(Debug)]
pub enum ReplayProgress {
    Pending(Replay),
    Complete(Vec<ExecutionInfo>),
}

/// The model of what a replay has come to.
pub enum ProgressModel {
    Pending(ReplayModel),
    Complete(Seq<ExecutionModel>),
}

impl View for ReplayProgress {
    type V = ProgressModel;

    open spec fn view(&self) -> ProgressModel {
        match *self {
            ReplayProgress::Pending(replay) => ProgressModel::Pending(replay@),
            ReplayProgress::Complete(infos) => ProgressModel::Complete(executions(infos@)),
        }
    }
}

/// What a replay needs done.
#[derive(Clone, Copy, Debug, PartialEq, Eq, Structural)]
pub enum ReplayRequest {
    /// Look up the committed receipt of a transaction.
    FindReceipt { tx_hash: Felt },
    /// Execute the transaction with this position in the block.
    Execute { index: usize },
    /// See whether execution left a state.
    CheckBlockState,
    /// Read or write in a fee token's storage.
    Storage { fee_token_address: ContractAddress, request: BalanceRequest },
}

/// The model of what a replay needs done.
pub enum ReplayRequestModel {
    FindReceipt { tx_hash: Felt },
    Execute { index: nat },
    CheckBlockState,
    Storage { fee_token: ContractAddress, request: RequestModel },
}

impl View for ReplayRequest {
    type V = ReplayRequestModel;

    open spec fn view(&self) -> ReplayRequestModel {
        match *self {
            ReplayRequest::FindReceipt { tx_hash } => ReplayRequestModel::FindReceipt { tx_hash },
            ReplayRequest::Execute { index } => ReplayRequestModel::Execute { index: index as nat },
            ReplayRequest::CheckBlockState => ReplayRequestModel::CheckBlockState,
            ReplayRequest::Storage { fee_token_address, request } => {
                ReplayRequestModel::Storage { fee_token: fee_token_address, request: request@ }
            },
        }
    }
}

/// What came of a request.
#[derive(Debug)]
pub enum ReplayReply<E> {
    /// The receipt, if there is one.
    Receipt(Option<CommittedReceipt>),
    /// The execution or its error, if execution gave anything.
    Executed(Option<Result<ExecutionInfo, E>>),
    /// Whether there is a state.
    BlockState(bool),
    /// What came of the request in the fee token's storage.
    Storage(BalanceReply),
}

/// The model of what came of a request.
pub enum ReplayReplyModel<E> {
    Receipt(Option<ReceiptModel>),
    Executed(Option<Result<ExecutionModel, E>>),
    BlockState(bool),
    Storage(ReplyModel),
}

impl<E> View for ReplayReply<E> {
    type V = ReplayReplyModel<E>;

    open spec fn view(&self) -> ReplayReplyModel<E> {
        match *self {
            ReplayReply::Receipt(None) => ReplayReplyModel::Receipt(None),
            ReplayReply::Receipt(Some(receipt)) => ReplayReplyModel::Receipt(Some(receipt@)),
            ReplayReply::Executed(None) => ReplayReplyModel::Executed(None),
            ReplayReply::Executed(Some(Ok(info))) => ReplayReplyModel::Executed(Some(Ok(info@))),
            ReplayReply::Executed(Some(Err(error))) => {
                ReplayReplyModel::Executed(Some(Err(error)))
            },
            ReplayReply::BlockState(present) => ReplayReplyModel::BlockState(present),
            ReplayReply::Storage(reply) => ReplayReplyModel::Storage(reply@),
        }
    }
}

/// The charge that was committed for a transaction: where an account pays, what the receipt's
/// events record, which may differ from the receipt's fee; otherwise the receipt's fee.
pub open spec fn committed_charge(
    transaction: ReplayTransaction,
    sequencer: ContractAddress,
    selector: nat,
    receipt_fee: Fee,
    events: Seq<EmittedModel>,
) -> Result<Fee, Seq<char>> {
    match transaction.kind {
        TransactionKind::Account { sender_address, fee_token_address } => recorded_charge(
            events,
            selector,
            fee_token_address@,
            sender_address@,
            sequencer@,
        ),
        TransactionKind::NonAccount => Ok(receipt_fee),
    }
}

/// The token that a transaction is paid in.
pub open spec fn fee_token_of(transaction: ReplayTransaction) -> ContractAddress
    recommends
        transaction.kind is Account,
{
    transaction.kind->fee_token_address
}

/// The current transaction of a replay.
pub open spec fn current_transaction(replay: ReplayModel) -> ReplayTransaction {
    replay.transactions[replay.completed.len() as int]
}

/// What the replay needs done.
pub open spec fn replay_request(replay: ReplayModel) -> ReplayRequestModel {
    match replay.phase {
        PhaseModel::Receipt => ReplayRequestModel::FindReceipt {
            tx_hash: current_transaction(replay).tx_hash,
        },
        PhaseModel::Execution { .. } => ReplayRequestModel::Execute {
            index: replay.completed.len(),
        },
        PhaseModel::BlockState(_) => ReplayRequestModel::CheckBlockState,
        PhaseModel::Balances(unsettled) => ReplayRequestModel::Storage {
            fee_token: unsettled.fee_token,
            request: pending_request(unsettled.reconciliation),
        },
    }
}

/// The failure of the current transaction's replay.
pub open spec fn replay_failure<E>(replay: ReplayModel, reason: Seq<char>) -> ErrorModel<E> {
    ErrorModel::CommittedFeeReplay { tx_hash: current_transaction(replay).tx_hash, reason }
}

/// The replay once the current transaction is completed.
pub open spec fn completed_with(replay: ReplayModel, info: ExecutionModel) -> ProgressModel {
    let completed = replay.completed.push(info);
    if completed.len() < replay.transactions.len() {
        ProgressModel::Pending(ReplayModel { completed, phase: PhaseModel::Receipt, ..replay })
    } else {
        ProgressModel::Complete(completed)
    }
}

/// The replay in another phase.
pub open spec fn in_phase(replay: ReplayModel, phase: PhaseModel) -> ProgressModel {
    ProgressModel::Pending(ReplayModel { phase, ..replay })
}

/// What the execution of the current transaction leads to.
pub open spec fn after_execution<E>(
    replay: ReplayModel,
    receipt_fee: Fee,
    gas: GasVector,
    events: Seq<EmittedModel>,
    info: ExecutionModel,
) -> Result<ProgressModel, ErrorModel<E>> {
    let transaction = current_transaction(replay);
    match committed_charge(transaction, replay.sequencer, replay.selector, receipt_fee, events) {
        Err(reason) => Err(replay_failure(replay, reason)),
        Ok(charge) => {
            let reconciled = reconciled_execution(
                transaction,
                replay.sequencer,
                replay.selector,
                info,
                charge,
                gas,
            );
            match receipt_reconciliation(
                transaction,
                replay.sequencer,
                replay.selector,
                info,
                charge,
            ) {
                Err(reason) => Err(replay_failure(replay, reason)),
                Ok(None) => Ok(completed_with(replay, reconciled)),
                Ok(Some(reconciliation)) => Ok(
                    in_phase(
                        replay,
                        PhaseModel::BlockState(
                            UnsettledModel {
                                info: reconciled,
                                charge,
                                gas,
                                fee_token: fee_token_of(transaction),
                                reconciliation,
                            },
                        ),
                    ),
                ),
            }
        },
    }
}

/// What a reply leads to. A reply to something else than what was asked for changes nothing.
pub open spec fn replay_step<E>(replay: ReplayModel, reply: ReplayReplyModel<E>) -> Result<
    ProgressModel,
    ErrorModel<E>,
> {
    match (replay.phase, reply) {
        (PhaseModel::Receipt, ReplayReplyModel::Receipt(None)) => Err(
            replay_failure(replay, "transaction receipt is missing"@),
        ),
        (PhaseModel::Receipt, ReplayReplyModel::Receipt(Some(receipt))) => {
            match receipt.actual_fee {
                Err(reason) => Err(replay_failure(replay, reason)),
                Ok(receipt_fee) => Ok(
                    in_phase(
                        replay,
                        PhaseModel::Execution {
                            receipt_fee,
                            gas: receipt.gas,
                            events: receipt.events,
                        },
                    ),
                ),
            }
        },
        (PhaseModel::Execution { .. }, ReplayReplyModel::Executed(None)) => Err(
            replay_failure(replay, "Blockifier returned no execution result"@),
        ),
        (PhaseModel::Execution { .. }, ReplayReplyModel::Executed(Some(Err(error)))) => Err(
            ErrorModel::Execution(error),
        ),
        (
            PhaseModel::Execution { receipt_fee, gas, events },
            ReplayReplyModel::Executed(Some(Ok(info))),
        ) => after_execution(replay, receipt_fee, gas, events, info),
        (PhaseModel::BlockState(unsettled), ReplayReplyModel::BlockState(present)) => {
            if present {
                Ok(in_phase(replay, PhaseModel::Balances(unsettled)))
            } else {
                Err(ErrorModel::MissingBlockStateAfterExecution)
            }
        },
        (PhaseModel::Balances(unsettled), ReplayReplyModel::Storage(reply)) => {
            match reconciliation_step(unsettled.reconciliation, reply) {
                Err(reason) => Err(replay_failure(replay, reason)),
                Ok(Some(reconciliation)) => Ok(
                    in_phase(
                        replay,
                        PhaseModel::Balances(UnsettledModel { reconciliation, ..unsettled }),
                    ),
                ),
                Ok(None) => Ok(
                    completed_with(
                        replay,
                        with_receipt(unsettled.info, unsettled.charge, unsettled.gas),
                    ),
                ),
            }
        },
        _ => Ok(ProgressModel::Pending(replay)),
    }
}

/// The start of a replay.
pub open spec fn replay_start(
    transactions: Seq<ReplayTransaction>,
    sequencer: ContractAddress,
    selector: nat,
) -> ProgressModel {
    if transactions.len() == 0 {
        ProgressModel::Complete(Seq::empty())
    } else {
        ProgressModel::Pending(
            ReplayModel {
                transactions,
                sequencer,
                selector,
                completed: Seq::empty(),
                phase: PhaseModel::Receipt,
            },
        )
    }
}

/// A result of a step with its model.
pub open spec fn progress_outcome<E>(res: Result<ReplayProgress, BlockProcessingError<E>>) -> Result<
    ProgressModel,
    ErrorModel<E>,
> {
    match res {
        Ok(progress) => Ok(progress@),
        Err(error) => Err(error@),
    }
}

impl Position {
    /// The current transaction.
    fn current(&self) -> (res: ReplayTransaction)
        ensures
            forall|phase: PhaseModel| res == current_transaction(#[trigger] self.model(phase)),
    {
        proof {
            use_type_invariant(self);
        }
        self.transactions[self.completed.len()]
    }

    /// The replay in a phase.
    fn pending(self, phase: Phase) -> (res: ReplayProgress)
        ensures
            res@ == ProgressModel::Pending(self.model(phase.model())),
    {
        ReplayProgress::Pending(Replay { position: self, phase })
    }

    /// The replay once the current transaction is completed with this execution.
    fn complete(self, info: ExecutionInfo) -> (res: ReplayProgress)
        ensures
            forall|phase: PhaseModel|
                res@ == completed_with(#[trigger] self.model(phase), info@),
    {
        let ghost before = executions(self.completed@);
        let Position { transactions, sequencer_address, transfer_event_selector, mut completed } =
            self;
        completed.push(info);
        assert(executions(completed@) =~= before.push(info@));
        if completed.len() < transactions.len() {
            let position = Position {
                transactions,
                sequencer_address,
                transfer_event_selector,
                completed,
            };
            position.pending(Phase::Receipt)
        } else {
            ReplayProgress::Complete(completed)
        }
    }

    /// The failure of the current transaction's replay.
    fn failure<E>(&self, reason: String) -> (res: BlockProcessingError<E>)
        ensures
            forall|phase: PhaseModel|
                res@ == replay_failure::<E>(#[trigger] self.model(phase), reason@),
    {
        BlockProcessingError::CommittedFeeReplay { tx_hash: self.current().tx_hash, reason }
    }

    /// Goes on after the execution of the current transaction.
    fn executed<E>(
        self,
        receipt_fee: Fee,
        gas: GasVector,
        events: Vec<Event>,
        info: ExecutionInfo,
    ) -> (res: Result<ReplayProgress, BlockProcessingError<E>>)
        ensures
            forall|phase: PhaseModel|
                progress_outcome(res) == after_execution::<E>(
                    #[trigger] self.model(phase),
                    receipt_fee,
                    gas,
                    emitted(events@),
                    info@,
                ),
    {
        let transaction = self.current();
        let charge = match transaction.kind {
            TransactionKind::Account { sender_address, fee_token_address } => {
                match fee_transfer_amount(
                    events.as_slice(),
                    self.transfer_event_selector,
                    fee_token_address,
                    sender_address,
                    self.sequencer_address,
                ) {
                    Ok(charge) => charge,
                    Err(reason) => {
                        return Err(self.failure(reason));
                    },
                }
            },
            TransactionKind::NonAccount => receipt_fee,
        };
        let mut info = info;
        match reconcile_transaction_receipt(
            &transaction,
            self.sequencer_address,
            self.transfer_event_selector,
            &mut info,
            charge,
            gas,
        ) {
            Err(reason) => Err(self.failure(reason)),
            Ok(None) => Ok(self.complete(info)),
            Ok(Some(reconciliation)) => match transaction.kind {
                TransactionKind::Account { fee_token_address, .. } => Ok(
                    self.pending(
                        Phase::BlockState(
                            Unsettled { info, charge, gas, fee_token_address, reconciliation },
                        ),
                    ),
                ),
                TransactionKind::NonAccount => Ok(self.complete(info)),
            },
        }
    }
}

impl Replay {
    /// Starts the replay of a block whose fee transfers have events with this selector.
    pub fn start(
        transactions: Vec<ReplayTransaction>,
        sequencer_address: ContractAddress,
        transfer_event_selector: Felt,
    ) -> (res: ReplayProgress)
        ensures
            res@ == replay_start(transactions@, sequencer_address, transfer_event_selector@),
    {
        let completed: Vec<ExecutionInfo> = Vec::new();
        assert(executions(completed@) =~= Seq::empty());
        if transactions.len() == 0 {
            ReplayProgress::Complete(completed)
        } else {
            let position = Position {
                transactions,
                sequencer_address,
                transfer_event_selector,
                completed,
            };
            position.pending(Phase::Receipt)
        }
    }

    /// What the replay needs done.
    pub fn request(&self) -> (res: ReplayRequest)
        ensures
            res@ == replay_request(self@),
    {
        match &self.phase {
            Phase::Receipt => ReplayRequest::FindReceipt {
                tx_hash: self.position.current().tx_hash,
            },
            Phase::Execution { .. } => ReplayRequest::Execute {
                index: self.position.completed.len(),
            },
            Phase::BlockState(_) => ReplayRequest::CheckBlockState,
            Phase::Balances(unsettled) => ReplayRequest::Storage {
                fee_token_address: unsettled.fee_token_address,
                request: unsettled.reconciliation.request(),
            },
        }
    }

    /// The executions of the transactions that are completed, in the order of the block.
    pub fn completed(&self) -> (res: &[ExecutionInfo])
        ensures
            executions(res@) == self@.completed,
    {
        self.position.completed.as_slice()
    }

    /// Goes on with what came of the request, up to the next request or the end.
    pub fn resume<E>(self, reply: ReplayReply<E>) -> (res: Result<
        ReplayProgress,
        BlockProcessingError<E>,
    >)
        ensures
            progress_outcome(res) == replay_step(self@, reply@),
    {
        let Replay { position, phase } = self;
        match (phase, reply) {
            (Phase::Receipt, ReplayReply::Receipt(None)) => Err(
                position.failure(String::from_str("transaction receipt is missing")),
            ),
            (Phase::Receipt, ReplayReply::Receipt(Some(receipt))) => {
                let CommittedReceipt { actual_fee, gas, events } = receipt;
                match actual_fee {
                    Ok(receipt_fee) => Ok(
                        position.pending(Phase::Execution { receipt_fee, gas, events }),
                    ),
                    Err(reason) => Err(position.failure(reason)),
                }
            },
            (Phase::Execution { .. }, ReplayReply::Executed(None)) => Err(
                position.failure(String::from_str("Blockifier returned no execution result")),
            ),
            (Phase::Execution { .. }, ReplayReply::Executed(Some(Err(error)))) => Err(
                BlockProcessingError::Execution(error),
            ),
            (
                Phase::Execution { receipt_fee, gas, events },
                ReplayReply::Executed(Some(Ok(info))),
            ) => position.executed(receipt_fee, gas, events, info),
            (Phase::BlockState(unsettled), ReplayReply::BlockState(present)) => {
                if present {
                    Ok(position.pending(Phase::Balances(unsettled)))
                } else {
                    Err(BlockProcessingError::MissingBlockStateAfterExecution)
                }
            },
            (Phase::Balances(unsettled), ReplayReply::Storage(reply)) => {
                let Unsettled { info, charge, gas, fee_token_address, reconciliation } = unsettled;
                match reconciliation.resume(reply) {
                    Err(reason) => Err(position.failure(reason)),
                    Ok(Some(reconciliation)) => Ok(
                        position.pending(
                            Phase::Balances(
                                Unsettled { info, charge, gas, fee_token_address, reconciliation },
                            ),
                        ),
                    ),
                    Ok(None) => {
                        let settled = ExecutionInfo {
                            fee: charge,
                            gas,
                            fee_transfer_call_info: info.fee_transfer_call_info,
                        };
                        Ok(position.complete(settled))
                    },
                }
            },
            (phase, _) => Ok(position.pending(phase)),
        }
    }
}

/// Starts the replay of a block: its transactions are executed one after the other, and each
/// execution is reconciled with the fee that was committed for it before the next one starts.
pub fn execute_with_committed_fees(
    transactions: Vec<ReplayTransaction>,
    sequencer_address: ContractAddress,
) -> (res: ReplayProgress)
    ensures
        res@ == replay_start(transactions@, sequencer_address, transfer_selector()),
{
    let transfer_event_selector = selector_from_name(transfer_event_name());
    Replay::start(transactions, sequencer_address, transfer_event_selector)
}

} // verus!

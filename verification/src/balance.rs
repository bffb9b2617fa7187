//! Balances of the fee token, and their adjustment to what was in fact charged.
use vstd::prelude::*;
use vstd::string::StringExecFns;

use crate::felt::{
    address_balance_keys, contract_address_debug, fee_token_balance_key, felt_hex, felt_to_u128,
    limb_base, ContractAddress, Felt,
};
use crate::receipt::Fee;
use crate::text::{hexadecimal, reasoned};

verus! {

/// The value of half a balance, where it fits 128 bits.
pub open spec fn limb_value(value: nat) -> Result<u128, Seq<char>> {
    if value <= u128::MAX {
        Ok(value as u128)
    } else {
        Err("fee-token balance limb exceeds u128: "@ + hexadecimal(value))
    }
}

/// The value of half a balance.
pub fn felt_limb_to_u128(value: Felt) -> (res: Result<u128, String>)
    ensures
        reasoned(res) == limb_value(value@),
{
    match felt_to_u128(&value) {
        Some(limb) => Ok(limb),
        None => Err(
            String::from_str("fee-token balance limb exceeds u128: ").concat(
                felt_hex(&value).as_str(),
            ),
        ),
    }
}

/// The 256-bit number with these halves.
pub open spec fn u256_value(low: nat, high: nat) -> nat {
    high * limb_base() + low
}

/// The halves of a 256-bit number after `amount` is added to it or taken from it, where the
/// outcome still has 256 bits.
pub open spec fn adjusted_limbs(low: u128, high: u128, amount: u128, increase: bool) -> Result<
    (u128, u128),
    Seq<char>,
> {
    let value = u256_value(low as nat, high as nat);
    if increase {
        let total = value + amount;
        if total < limb_base() * limb_base() {
            Ok(((total % limb_base() as int) as u128, (total / limb_base() as int) as u128))
        } else {
            Err("fee-token balance overflowed u256"@)
        }
    } else {
        let total = value - amount;
        if 0 <= total {
            Ok(((total % limb_base() as int) as u128, (total / limb_base() as int) as u128))
        } else {
            Err("fee-token balance underflowed u256"@)
        }
    }
}

/// Adds `amount` to the 256-bit number with the given halves, or takes it away.
pub fn adjust_u256_limbs(low: u128, high: u128, amount: u128, increase: bool) -> (res: Result<
    (u128, u128),
    String,
>)
    ensures
        reasoned(res) == adjusted_limbs(low, high, amount, increase),
{
    if increase {
        let new_low = low.wrapping_add(amount);
        let carry: u128 = if new_low < low {
            1
        } else {
            0
        };
        match high.checked_add(carry) {
            Some(new_high) => Ok((new_low, new_high)),
            None => Err(String::from_str("fee-token balance overflowed u256")),
        }
    } else {
        let new_low = low.wrapping_sub(amount);
        let borrow: u128 = if low < amount {
            1
        } else {
            0
        };
        match high.checked_sub(borrow) {
            Some(new_high) => Ok((new_low, new_high)),
            None => Err(String::from_str("fee-token balance underflowed u256")),
        }
    }
}

/// An amount to add to an owner's balance, or to take from it.
#[derive(Clone, Copy, Debug, PartialEq, Eq, Structural)]
pub struct BalanceAdjustment {
    pub owner: ContractAddress,
    pub amount: u128,
    pub increase: bool,
}

/// The two storage writes, low half first, that give an owner a new balance.
#[derive(Clone, Copy, Debug, PartialEq, Eq, Structural)]
pub struct BalanceWrites {
    pub low_key: Felt,
    pub low: Felt,
    pub high_key: Felt,
    pub high: Felt,
}

/// The model of the two writes of a balance.
pub struct WritesModel {
    pub low_key: nat,
    pub low: nat,
    pub high_key: nat,
    pub high: nat,
}

impl View for BalanceWrites {
    type V = WritesModel;

    open spec fn view(&self) -> WritesModel {
        WritesModel {
            low_key: self.low_key@,
            low: self.low@,
            high_key: self.high_key@,
            high: self.high@,
        }
    }
}

/// How an owner of a balance is named in a reason.
pub open spec fn owner_text(owner: ContractAddress) -> Seq<char> {
    "ContractAddress(PatriciaKey("@ + hexadecimal(owner@) + "))"@
}

/// Why a balance is not known.
pub open spec fn read_reason(owner: ContractAddress, error: Seq<char>) -> Seq<char> {
    "failed to read fee-token balance for "@ + owner_text(owner) + ": "@ + error
}

/// Why the low half of a balance was not written.
pub open spec fn low_write_reason(owner: ContractAddress, error: Seq<char>) -> Seq<char> {
    "failed to write low fee-token balance for "@ + owner_text(owner) + ": "@ + error
}

/// Why the high half of a balance was not written.
pub open spec fn high_write_reason(owner: ContractAddress, error: Seq<char>) -> Seq<char> {
    "failed to write high fee-token balance for "@ + owner_text(owner) + ": "@ + error
}

/// What reading a balance gave: its halves, or the text of the error.
pub open spec fn balance_model(balance: Result<(Felt, Felt), String>) -> Result<
    (nat, nat),
    Seq<char>,
> {
    match balance {
        Ok((low, high)) => Ok((low@, high@)),
        Err(error) => Err(error@),
    }
}

/// The writes that an adjustment asks for, given what reading the balance gave, where the halves
/// of the balance are stored under these keys.
pub open spec fn adjustment_writes(
    adjustment: BalanceAdjustment,
    low_key: nat,
    high_key: nat,
    balance: Result<(nat, nat), Seq<char>>,
) -> Result<WritesModel, Seq<char>> {
    match balance {
        Err(error) => Err(read_reason(adjustment.owner, error)),
        Ok((low, high)) => match (limb_value(low), limb_value(high)) {
            (Err(reason), _) => Err(reason),
            (Ok(_), Err(reason)) => Err(reason),
            (Ok(low), Ok(high)) => match adjusted_limbs(
                low,
                high,
                adjustment.amount,
                adjustment.increase,
            ) {
                Err(reason) => Err(reason),
                Ok((new_low, new_high)) => Ok(
                    WritesModel {
                        low_key,
                        low: new_low as nat,
                        high_key,
                        high: new_high as nat,
                    },
                ),
            },
        },
    }
}

/// A result of writes with their model and the text of its reason.
pub open spec fn writes_outcome(res: Result<BalanceWrites, String>) -> Result<
    WritesModel,
    Seq<char>,
> {
    match res {
        Ok(writes) => Ok(writes@),
        Err(reason) => Err(reason@),
    }
}

/// The writes by which a balance, stored under the given keys, is adjusted.
pub fn adjust_balance_at(
    adjustment: BalanceAdjustment,
    low_key: Felt,
    high_key: Felt,
    balance: Result<(Felt, Felt), String>,
) -> (res: Result<BalanceWrites, String>)
    ensures
        writes_outcome(res) == adjustment_writes(
            adjustment,
            low_key@,
            high_key@,
            balance_model(balance),
        ),
{
    let (low, high) = match balance {
        Ok(halves) => halves,
        Err(error) => {
            return Err(
                String::from_str("failed to read fee-token balance for ").concat(
                    contract_address_debug(&adjustment.owner).as_str(),
                ).concat(": ").concat(error.as_str()),
            );
        },
    };
    let low = match felt_limb_to_u128(low) {
        Ok(limb) => limb,
        Err(reason) => {
            return Err(reason);
        },
    };
    let high = match felt_limb_to_u128(high) {
        Ok(limb) => limb,
        Err(reason) => {
            return Err(reason);
        },
    };
    match adjust_u256_limbs(low, high, adjustment.amount, adjustment.increase) {
        Ok((new_low, new_high)) => Ok(
            BalanceWrites {
                low_key,
                low: Felt::from_u128(new_low),
                high_key,
                high: Felt::from_u128(new_high),
            },
        ),
        Err(reason) => Err(reason),
    }
}

/// The writes by which the owner's balance is adjusted, given what reading the balance gave.
pub fn adjust_balance(
    adjustment: BalanceAdjustment,
    balance: Result<(Felt, Felt), String>,
) -> (res: Result<BalanceWrites, String>)
    ensures
        writes_outcome(res) == adjustment_writes(
            adjustment,
            fee_token_balance_key(adjustment.owner@),
            fee_token_balance_key(adjustment.owner@) + 1,
            balance_model(balance),
        ),
{
    let (low_key, high_key) = address_balance_keys(&adjustment.owner);
    adjust_balance_at(adjustment, low_key, high_key, balance)
}

/// What a reconciliation of balances is waiting for.
#[derive(Clone, Copy, Debug, PartialEq, Eq, Structural)]
pub enum BalanceStage {
    /// The balance that is to be adjusted.
    Read,
    /// The write of the balance's low half.
    WriteLow(BalanceWrites),
    /// The write of the balance's high half.
    WriteHigh(BalanceWrites),
}

/// The adjustments that are left to make in the fee token's storage, and how far the first of them
/// has come.
#[derive(Clone, Copy, Debug, PartialEq, Eq, Structural)]
pub struct BalanceReconciliation {
    pub current: BalanceAdjustment,
    pub rest: Option<BalanceAdjustment>,
    pub stage: BalanceStage,
}

/// What is to be done next in the fee token's storage.
#[derive(Clone, Copy, Debug, PartialEq, Eq, Structural)]
pub enum BalanceRequest {
    /// Read the balance of an owner.
    Read { owner: ContractAddress },
    /// Store a value under a key.
    Write { key: Felt, value: Felt },
}

/// What came of a request.
#[derive(Debug)]
pub enum BalanceReply {
    /// The halves of the balance, low half first, or the text of the error.
    Balance(Result<(Felt, Felt), String>),
    /// Whether the value was stored, or the text of the error.
    Written(Result<(), String>),
}

/// The model of a stage.
pub enum StageModel {
    Read,
    WriteLow(WritesModel),
    WriteHigh(WritesModel),
}

/// The model of a reconciliation.
pub struct ReconciliationModel {
    pub current: BalanceAdjustment,
    pub rest: Option<BalanceAdjustment>,
    pub stage: StageModel,
}

/// The model of a request.
pub enum RequestModel {
    Read { owner: ContractAddress },
    Write { key: nat, value: nat },
}

/// The model of a reply.
pub enum ReplyModel {
    Balance(Result<(nat, nat), Seq<char>>),
    Written(Result<(), Seq<char>>),
}

impl View for BalanceStage {
    type V = StageModel;

    open spec fn view(&self) -> StageModel {
        match *self {
            BalanceStage::Read => StageModel::Read,
            BalanceStage::WriteLow(writes) => StageModel::WriteLow(writes@),
            BalanceStage::WriteHigh(writes) => StageModel::WriteHigh(writes@),
        }
    }
}

impl View for BalanceReconciliation {
    type V = ReconciliationModel;

    open spec fn view(&self) -> ReconciliationModel {
        ReconciliationModel { current: self.current, rest: self.rest, stage: self.stage@ }
    }
}

impl View for BalanceRequest {
    type V = RequestModel;

    open spec fn view(&self) -> RequestModel {
        match *self {
            BalanceRequest::Read { owner } => RequestModel::Read { owner },
            BalanceRequest::Write { key, value } => RequestModel::Write {
                key: key@,
                value: value@,
            },
        }
    }
}

impl View for BalanceReply {
    type V = ReplyModel;

    open spec fn view(&self) -> ReplyModel {
        match *self {
            BalanceReply::Balance(balance) => ReplyModel::Balance(balance_model(balance)),
            BalanceReply::Written(written) => ReplyModel::Written(reasoned(written)),
        }
    }
}

/// An optional reconciliation with its model.
pub open spec fn reconciliation_model(reconciliation: Option<BalanceReconciliation>) -> Option<
    ReconciliationModel,
> {
    match reconciliation {
        Some(reconciliation) => Some(reconciliation@),
        None => None,
    }
}

/// The reconciliation that makes up for a calculated charge in place of the committed one: the
/// difference goes back to the sender where too much was calculated, and to the sequencer where
/// too little was. Equal charges need none.
pub open spec fn planned_reconciliation(
    sender: ContractAddress,
    sequencer: ContractAddress,
    calculated: Fee,
    committed: Fee,
) -> Option<ReconciliationModel> {
    if calculated == committed {
        None
    } else {
        let sender_increases = calculated.0 > committed.0;
        let amount = if sender_increases {
            (calculated.0 - committed.0) as u128
        } else {
            (committed.0 - calculated.0) as u128
        };
        Some(
            ReconciliationModel {
                current: BalanceAdjustment { owner: sender, amount, increase: sender_increases },
                rest: Some(
                    BalanceAdjustment { owner: sequencer, amount, increase: !sender_increases },
                ),
                stage: StageModel::Read,
            },
        )
    }
}

/// What a reconciliation asks for at its stage.
pub open spec fn pending_request(reconciliation: ReconciliationModel) -> RequestModel {
    match reconciliation.stage {
        StageModel::Read => RequestModel::Read { owner: reconciliation.current.owner },
        StageModel::WriteLow(writes) => RequestModel::Write {
            key: writes.low_key,
            value: writes.low,
        },
        StageModel::WriteHigh(writes) => RequestModel::Write {
            key: writes.high_key,
            value: writes.high,
        },
    }
}

/// What is left of a reconciliation after a reply, `None` once nothing is. A reply to something
/// else than what was asked for changes nothing.
pub open spec fn reconciliation_step(
    reconciliation: ReconciliationModel,
    reply: ReplyModel,
) -> Result<Option<ReconciliationModel>, Seq<char>> {
    let owner = reconciliation.current.owner;
    match (reconciliation.stage, reply) {
        (StageModel::Read, ReplyModel::Balance(balance)) => match adjustment_writes(
            reconciliation.current,
            fee_token_balance_key(owner@),
            fee_token_balance_key(owner@) + 1,
            balance,
        ) {
            Ok(writes) => Ok(
                Some(
                    ReconciliationModel { stage: StageModel::WriteLow(writes), ..reconciliation },
                ),
            ),
            Err(reason) => Err(reason),
        },
        (StageModel::WriteLow(writes), ReplyModel::Written(written)) => match written {
            Ok(_) => Ok(
                Some(
                    ReconciliationModel { stage: StageModel::WriteHigh(writes), ..reconciliation },
                ),
            ),
            Err(error) => Err(low_write_reason(owner, error)),
        },
        (StageModel::WriteHigh(writes), ReplyModel::Written(written)) => match written {
            Ok(_) => Ok(
                match reconciliation.rest {
                    Some(adjustment) => Some(
                        ReconciliationModel {
                            current: adjustment,
                            rest: None,
                            stage: StageModel::Read,
                        },
                    ),
                    None => None,
                },
            ),
            Err(error) => Err(high_write_reason(owner, error)),
        },
        _ => Ok(Some(reconciliation)),
    }
}

/// A result of a reconciliation with its model and the text of its reason.
pub open spec fn reconciliation_outcome(
    res: Result<Option<BalanceReconciliation>, String>,
) -> Result<Option<ReconciliationModel>, Seq<char>> {
    match res {
        Ok(reconciliation) => Ok(reconciliation_model(reconciliation)),
        Err(reason) => Err(reason@),
    }
}

/// The reconciliation of the sender's and the sequencer's balances with the committed charge, in
/// that order; `None` where the charges agree.
pub fn reconcile_fee_token_balances(
    sender_address: ContractAddress,
    sequencer_address: ContractAddress,
    calculated_fee: Fee,
    committed_fee: Fee,
) -> (res: Option<BalanceReconciliation>)
    ensures
        reconciliation_model(res) == planned_reconciliation(
            sender_address,
            sequencer_address,
            calculated_fee,
            committed_fee,
        ),
{
    let sender_increases = calculated_fee.0 >= committed_fee.0;
    let difference: u128 = if sender_increases {
        calculated_fee.0 - committed_fee.0
    } else {
        committed_fee.0 - calculated_fee.0
    };
    if difference == 0 {
        return None;
    }
    Some(
        BalanceReconciliation {
            current: BalanceAdjustment {
                owner: sender_address,
                amount: difference,
                increase: sender_increases,
            },
            rest: Some(
                BalanceAdjustment {
                    owner: sequencer_address,
                    amount: difference,
                    increase: !sender_increases,
                },
            ),
            stage: BalanceStage::Read,
        },
    )
}

impl BalanceReconciliation {
    /// What is to be done next in the fee token's storage.
    pub fn request(&self) -> (res: BalanceRequest)
        ensures
            res@ == pending_request(self@),
    {
        match self.stage {
            BalanceStage::Read => BalanceRequest::Read { owner: self.current.owner },
            BalanceStage::WriteLow(writes) => BalanceRequest::Write {
                key: writes.low_key,
                value: writes.low,
            },
            BalanceStage::WriteHigh(writes) => BalanceRequest::Write {
                key: writes.high_key,
                value: writes.high,
            },
        }
    }

    /// Goes on with what came of the request, up to the next request.
    pub fn resume(self, reply: BalanceReply) -> (res: Result<Option<BalanceReconciliation>, String>)
        ensures
            reconciliation_outcome(res) == reconciliation_step(self@, reply@),
    {
        match (self.stage, reply) {
            (BalanceStage::Read, BalanceReply::Balance(balance)) => {
                match adjust_balance(self.current, balance) {
                    Ok(writes) => Ok(
                        Some(
                            BalanceReconciliation { stage: BalanceStage::WriteLow(writes), ..self },
                        ),
                    ),
                    Err(reason) => Err(reason),
                }
            },
            (BalanceStage::WriteLow(writes), BalanceReply::Written(written)) => match written {
                Ok(_) => Ok(
                    Some(BalanceReconciliation { stage: BalanceStage::WriteHigh(writes), ..self }),
                ),
                Err(error) => Err(
                    String::from_str("failed to write low fee-token balance for ").concat(
                        contract_address_debug(&self.current.owner).as_str(),
                    ).concat(": ").concat(error.as_str()),
                ),
            },
            (BalanceStage::WriteHigh(_), BalanceReply::Written(written)) => match written {
                Ok(_) => match self.rest {
                    Some(adjustment) => Ok(
                        Some(
                            BalanceReconciliation {
                                current: adjustment,
                                rest: None,
                                stage: BalanceStage::Read,
                            },
                        ),
                    ),
                    None => Ok(None),
                },
                Err(error) => Err(
                    String::from_str("failed to write high fee-token balance for ").concat(
                        contract_address_debug(&self.current.owner).as_str(),
                    ).concat(": ").concat(error.as_str()),
                ),
            },
            _ => Ok(Some(self)),
        }
    }
}

} // verus!

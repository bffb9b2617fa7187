//! What the reconciliation of balances amounts to in the fee token's storage.
use vstd::prelude::*;

use crate::balance::{
    adjusted_limbs, adjustment_writes, balance_model, limb_value, pending_request,
    planned_reconciliation, reconciliation_model, reconciliation_outcome, reconciliation_step,
    u256_value, writes_outcome, BalanceAdjustment, BalanceReconciliation, BalanceReply,
    BalanceRequest, BalanceStage, BalanceWrites, ReconciliationModel, ReplyModel, RequestModel,
    StageModel, WritesModel,
};
use crate::felt::{fee_token_balance_key, limb_base, ContractAddress, Felt};
use crate::receipt::Fee;
use crate::text::hexadecimal;

verus! {

/// The adjusted halves make up the number that is `amount` more, or less.
pub proof fn law_adjustment_is_exact(low: u128, high: u128, amount: u128, increase: bool)
    ensures
        adjusted_limbs(low, high, amount, increase) matches Ok(halves) ==> u256_value(
            halves.0 as nat,
            halves.1 as nat,
        ) == (if increase {
            u256_value(low as nat, high as nat) + amount
        } else {
            u256_value(low as nat, high as nat) - amount
        }),
{
}

/// The halves of a 256-bit number are what they were put together from.
proof fn lemma_halves(low: u128, high: u128)
    ensures
        u256_value(low as nat, high as nat) as int % limb_base() as int == low,
        u256_value(low as nat, high as nat) as int / limb_base() as int == high,
        u256_value(low as nat, high as nat) < limb_base() * limb_base(),
{
}

/// Adding an amount and taking it away undo each other, in either order.
pub proof fn law_adjustments_undo_each_other(low: u128, high: u128, amount: u128, increase: bool)
    ensures
        adjusted_limbs(low, high, amount, increase) matches Ok(halves) ==> adjusted_limbs(
            halves.0,
            halves.1,
            amount,
            !increase,
        ) == Ok::<(u128, u128), Seq<char>>((low, high)),
{
    law_adjustment_is_exact(low, high, amount, increase);
    lemma_halves(low, high);
    if let Ok(halves) = adjusted_limbs(low, high, amount, increase) {
        let value = u256_value(low as nat, high as nat);
        let moved = u256_value(halves.0 as nat, halves.1 as nat);
        if increase {
            assert(moved - amount == value);
        } else {
            assert(moved + amount == value);
        }
    }
}

/// The reply of a storage that holds what was last written to it.
pub open spec fn storage_reply(storage: Map<nat, nat>, request: RequestModel) -> ReplyModel {
    match request {
        RequestModel::Read { owner } => {
            let key = fee_token_balance_key(owner@);
            ReplyModel::Balance(Ok((storage[key], storage[key + 1])))
        },
        RequestModel::Write { key, value } => ReplyModel::Written(Ok(())),
    }
}

/// The storage after a request.
pub open spec fn storage_after(storage: Map<nat, nat>, request: RequestModel) -> Map<nat, nat> {
    match request {
        RequestModel::Read { owner } => storage,
        RequestModel::Write { key, value } => storage.insert(key, value),
    }
}

/// How many requests are left to a reconciliation.
pub open spec fn requests_left(reconciliation: Option<ReconciliationModel>) -> nat {
    match reconciliation {
        None => 0,
        Some(reconciliation) => {
            let current: nat = match reconciliation.stage {
                StageModel::Read => 3,
                StageModel::WriteLow(_) => 2,
                StageModel::WriteHigh(_) => 1,
            };
            if reconciliation.rest is Some {
                current + 3
            } else {
                current
            }
        },
    }
}

/// The storage at the end of a reconciliation whose every request it answers, or the reason for
/// which the reconciliation ends before.
pub open spec fn settled(
    storage: Map<nat, nat>,
    reconciliation: Option<ReconciliationModel>,
) -> Result<Map<nat, nat>, Seq<char>>
    decreases requests_left(reconciliation),
{
    match reconciliation {
        None => Ok(storage),
        Some(pending) => {
            let request = pending_request(pending);
            match reconciliation_step(pending, storage_reply(storage, request)) {
                Ok(next) => settled(storage_after(storage, request), next),
                Err(reason) => Err(reason),
            }
        },
    }
}

/// The balance of an owner in the fee token's storage.
pub open spec fn stored_balance(storage: Map<nat, nat>, owner: ContractAddress) -> nat {
    let key = fee_token_balance_key(owner@);
    u256_value(storage[key], storage[key + 1])
}

/// Whether both halves of an owner's balance have 128 bits.
pub open spec fn stored_in_halves(storage: Map<nat, nat>, owner: ContractAddress) -> bool {
    let key = fee_token_balance_key(owner@);
    storage[key] <= u128::MAX && storage[key + 1] <= u128::MAX
}

/// Whether no half of one owner's balance is stored where a half of the other's is.
pub open spec fn stored_apart(a: ContractAddress, b: ContractAddress) -> bool {
    let a_key = fee_token_balance_key(a@);
    let b_key = fee_token_balance_key(b@);
    a_key + 1 < b_key || b_key + 1 < a_key
}

/// A reconciliation at its start.
pub open spec fn unread(
    current: BalanceAdjustment,
    rest: Option<BalanceAdjustment>,
) -> ReconciliationModel {
    ReconciliationModel { current, rest, stage: StageModel::Read }
}

/// The first adjustment of a reconciliation is settled by its two writes.
proof fn lemma_settle_first(
    storage: Map<nat, nat>,
    current: BalanceAdjustment,
    rest: Option<BalanceAdjustment>,
)
    ensures
        ({
            let key = fee_token_balance_key(current.owner@);
            let after_current = match rest {
                Some(adjustment) => Some(unread(adjustment, None)),
                None => None,
            };
            settled(storage, Some(unread(current, rest))) == match adjustment_writes(
                current,
                key,
                key + 1,
                Ok((storage[key], storage[key + 1])),
            ) {
                Ok(writes) => settled(
                    storage.insert(writes.low_key, writes.low).insert(writes.high_key, writes.high),
                    after_current,
                ),
                Err(reason) => Err(reason),
            }
        }),
{
    reveal_with_fuel(settled, 4);
}

/// Reconciled balances are those of the committed charge. The sender ends with what it would have
/// had, had the committed fee been taken in place of the calculated one, the sequencer likewise,
/// nothing is gained or lost between them, and no other storage is touched.
pub proof fn law_reconciled_balances(
    storage: Map<nat, nat>,
    sender: ContractAddress,
    sequencer: ContractAddress,
    calculated: Fee,
    committed: Fee,
)
    requires
        stored_apart(sender, sequencer),
    ensures
        settled(
            storage,
            planned_reconciliation(sender, sequencer, calculated, committed),
        ) matches Ok(after) ==> {
            &&& stored_balance(after, sender) == stored_balance(storage, sender) + calculated.0
                - committed.0
            &&& stored_balance(after, sequencer) == stored_balance(storage, sequencer)
                - calculated.0 + committed.0
            &&& stored_balance(after, sender) + stored_balance(after, sequencer)
                == stored_balance(storage, sender) + stored_balance(storage, sequencer)
            &&& forall|key: nat|
                key != fee_token_balance_key(sender@) && key != fee_token_balance_key(sender@) + 1
                    && key != fee_token_balance_key(sequencer@) && key != fee_token_balance_key(
                    sequencer@,
                ) + 1 ==> #[trigger] after[key] == storage[key]
        },
{
    match planned_reconciliation(sender, sequencer, calculated, committed) {
        None => {},
        Some(plan) => {
            let sequencer_adjustment = plan.rest->0;
            lemma_settle_first(storage, plan.current, plan.rest);
            let key = fee_token_balance_key(sender@);
            let sequencer_key = fee_token_balance_key(sequencer@);
            match adjustment_writes(
                plan.current,
                key,
                key + 1,
                Ok((storage[key], storage[key + 1])),
            ) {
                Err(reason) => {},
                Ok(writes) => {
                    let between = storage.insert(writes.low_key, writes.low).insert(
                        writes.high_key,
                        writes.high,
                    );
                    lemma_settle_first(between, sequencer_adjustment, None);
                    law_adjustment_is_exact(
                        storage[key] as u128,
                        storage[key + 1] as u128,
                        plan.current.amount,
                        plan.current.increase,
                    );
                    law_adjustment_is_exact(
                        storage[sequencer_key] as u128,
                        storage[sequencer_key + 1] as u128,
                        sequencer_adjustment.amount,
                        sequencer_adjustment.increase,
                    );
                },
            }
        },
    }
}

/// A reconciliation succeeds exactly where the charges agree, or where both balances are stored in
/// halves of 128 bits and stay within 256 bits.
pub proof fn law_reconciliation_succeeds(
    storage: Map<nat, nat>,
    sender: ContractAddress,
    sequencer: ContractAddress,
    calculated: Fee,
    committed: Fee,
)
    requires
        stored_apart(sender, sequencer),
    ensures
        settled(
            storage,
            planned_reconciliation(sender, sequencer, calculated, committed),
        ) is Ok <==> {
            ||| calculated == committed
            ||| {
                &&& stored_in_halves(storage, sender)
                &&& stored_in_halves(storage, sequencer)
                &&& 0 <= stored_balance(storage, sender) + calculated.0 - committed.0 < limb_base()
                    * limb_base()
                &&& 0 <= stored_balance(storage, sequencer) - calculated.0 + committed.0
                    < limb_base() * limb_base()
            }
        },
{
    match planned_reconciliation(sender, sequencer, calculated, committed) {
        None => {},
        Some(plan) => {
            let sequencer_adjustment = plan.rest->0;
            lemma_settle_first(storage, plan.current, plan.rest);
            let key = fee_token_balance_key(sender@);
            match adjustment_writes(
                plan.current,
                key,
                key + 1,
                Ok((storage[key], storage[key + 1])),
            ) {
                Err(reason) => {},
                Ok(writes) => {
                    let between = storage.insert(writes.low_key, writes.low).insert(
                        writes.high_key,
                        writes.high,
                    );
                    lemma_settle_first(between, sequencer_adjustment, None);
                },
            }
        },
    }
}

/// The reason for a half of a balance that has more than 128 bits.
pub open spec fn too_long(limb: nat) -> Seq<char> {
    "fee-token balance limb exceeds u128: "@ + hexadecimal(limb)
}

/// Half a balance is worth itself where it has 128 bits; a longer one is refused by its value.
pub proof fn law_limb_is_worth_itself(value: nat)
    ensures
        match limb_value(value) {
            Ok(limb) => limb as nat == value,
            Err(reason) => value > u128::MAX && reason == too_long(value),
        },
{
}

/// What an adjustment changes a balance by.
pub open spec fn change(amount: u128, increase: bool) -> int {
    if increase {
        amount as int
    } else {
        -(amount as int)
    }
}

/// An adjusted balance is the balance and the change, counted in units of 2^128 and ones. It is
/// refused only where that has no 256 bits: above them on an increase, below zero on a decrease.
pub proof fn law_adjusted_balance_adds_up(low: u128, high: u128, amount: u128, increase: bool)
    ensures
        ({
            let unit = u128::MAX + 1;
            let target = high * unit + low + change(amount, increase);
            match adjusted_limbs(low, high, amount, increase) {
                Ok((new_low, new_high)) => new_high * unit + new_low == target,
                Err(reason) => if increase {
                    target >= unit * unit && reason == "fee-token balance overflowed u256"@
                } else {
                    target < 0 && reason == "fee-token balance underflowed u256"@
                },
            }
        }),
{
    law_adjustment_is_exact(low, high, amount, increase);
    assert(limb_base() == u128::MAX + 1);
}

/// What is written for an adjustment: both halves under their keys, low half under the low key and
/// high half under the high key, so that the balance has changed by the amount. Nothing is written
/// where the balance was not read, has a half that is too long, or leaves 256 bits.
pub proof fn law_writes_add_up(
    adjustment: BalanceAdjustment,
    low_key: nat,
    high_key: nat,
    low: nat,
    high: nat,
    error: Seq<char>,
)
    ensures
        ({
            let unit = u128::MAX + 1;
            let target = high * unit + low + change(adjustment.amount, adjustment.increase);
            match adjustment_writes(adjustment, low_key, high_key, Ok((low, high))) {
                Ok(writes) => {
                    &&& low <= u128::MAX
                    &&& high <= u128::MAX
                    &&& writes.low_key == low_key
                    &&& writes.high_key == high_key
                    &&& writes.low <= u128::MAX
                    &&& writes.high <= u128::MAX
                    &&& writes.high * unit + writes.low == target
                },
                Err(reason) => if low > u128::MAX {
                    reason == too_long(low)
                } else if high > u128::MAX {
                    reason == too_long(high)
                } else if adjustment.increase {
                    target >= unit * unit && reason == "fee-token balance overflowed u256"@
                } else {
                    target < 0 && reason == "fee-token balance underflowed u256"@
                },
            }
        }),
        adjustment_writes(adjustment, low_key, high_key, Err(error)) == Err::<
            WritesModel,
            Seq<char>,
        >(
            "failed to read fee-token balance for "@ + ("ContractAddress(PatriciaKey("@
                + hexadecimal(adjustment.owner@) + "))"@) + ": "@ + error,
        ),
{
    if low <= u128::MAX && high <= u128::MAX {
        law_adjusted_balance_adds_up(
            low as u128,
            high as u128,
            adjustment.amount,
            adjustment.increase,
        );
    }
}

/// What is planned gives the sender back what was calculated and takes what was committed, the
/// sequencer the other way round, and it is planned for every two charges that differ.
pub proof fn law_plan_makes_up_for_the_difference(
    sender: ContractAddress,
    sequencer: ContractAddress,
    calculated: Fee,
    committed: Fee,
)
    ensures
        match planned_reconciliation(sender, sequencer, calculated, committed) {
            None => calculated.0 == committed.0,
            Some(plan) => {
                &&& calculated.0 != committed.0
                &&& plan.stage is Read
                &&& plan.current.owner == sender
                &&& change(plan.current.amount, plan.current.increase) == calculated.0
                    - committed.0
                &&& plan.rest matches Some(rest) && rest.owner == sequencer && change(
                    rest.amount,
                    rest.increase,
                ) == committed.0 - calculated.0
            },
        },
{
}

/// A reconciliation reads the balance of the owner whose turn it is, then writes the low half, then
/// the high half, each under its key.
pub proof fn law_requests_follow_the_stage(reconciliation: ReconciliationModel)
    ensures
        match pending_request(reconciliation) {
            RequestModel::Read { owner } => {
                &&& reconciliation.stage is Read
                &&& owner == reconciliation.current.owner
            },
            RequestModel::Write { key, value } => match reconciliation.stage {
                StageModel::Read => false,
                StageModel::WriteLow(writes) => key == writes.low_key && value == writes.low,
                StageModel::WriteHigh(writes) => key == writes.high_key && value == writes.high,
            },
        },
{
}

/// A balance that was read leads to its writes, under the keys of its owner, or to the reason for
/// which there are none; what is left after it stays.
pub proof fn law_read_balance_is_written(
    reconciliation: ReconciliationModel,
    balance: Result<(nat, nat), Seq<char>>,
)
    requires
        reconciliation.stage is Read,
    ensures
        ({
            let key = fee_token_balance_key(reconciliation.current.owner@);
            let writes = adjustment_writes(reconciliation.current, key, key + 1, balance);
            match reconciliation_step(reconciliation, ReplyModel::Balance(balance)) {
                Ok(next) => next matches Some(next) && {
                    &&& next.current == reconciliation.current
                    &&& next.rest == reconciliation.rest
                    &&& writes is Ok
                    &&& next.stage == StageModel::WriteLow(writes->Ok_0)
                },
                Err(reason) => writes is Err && reason == writes->Err_0,
            }
        }),
{
}

/// A write that was made leads to the next one, and after the high half to the next owner or the
/// end; a write that failed leads to a reason that names the half, the owner and the error.
pub proof fn law_writes_are_made_in_turn(
    reconciliation: ReconciliationModel,
    writes: WritesModel,
    error: Seq<char>,
)
    ensures
        reconciliation.stage == StageModel::WriteLow(writes) ==> {
            &&& reconciliation_step(reconciliation, ReplyModel::Written(Ok(()))) matches Ok(
                Some(next),
            ) && next.current == reconciliation.current && next.rest == reconciliation.rest
                && next.stage == StageModel::WriteHigh(writes)
            &&& reconciliation_step(reconciliation, ReplyModel::Written(Err(error))) == Err::<
                Option<ReconciliationModel>,
                Seq<char>,
            >(
                "failed to write low fee-token balance for "@ + ("ContractAddress(PatriciaKey("@
                    + hexadecimal(reconciliation.current.owner@) + "))"@) + ": "@ + error,
            )
        },
        reconciliation.stage == StageModel::WriteHigh(writes) ==> {
            &&& match (
                reconciliation_step(reconciliation, ReplyModel::Written(Ok(()))),
                reconciliation.rest,
            ) {
                (Ok(Some(next)), Some(rest)) => next.current == rest && next.rest is None
                    && next.stage is Read,
                (Ok(None), None) => true,
                _ => false,
            }
            &&& reconciliation_step(reconciliation, ReplyModel::Written(Err(error))) == Err::<
                Option<ReconciliationModel>,
                Seq<char>,
            >(
                "failed to write high fee-token balance for "@ + ("ContractAddress(PatriciaKey("@
                    + hexadecimal(reconciliation.current.owner@) + "))"@) + ": "@ + error,
            )
        },
{
}

/// A reply of another kind than the one that is waited for leaves a reconciliation where it is.
pub proof fn law_unasked_reply_leaves_balances_waiting(
    reconciliation: ReconciliationModel,
    reply: ReplyModel,
)
    requires
        reconciliation.stage is Read <==> reply is Written,
    ensures
        reconciliation_step(reconciliation, reply) == Ok::<Option<ReconciliationModel>, Seq<char>>(
            Some(reconciliation),
        ),
{
}

/// Writes, stages and reconciliations are read field by field.
pub proof fn law_reconciliations_are_read_as_they_are(
    writes: BalanceWrites,
    reconciliation: BalanceReconciliation,
    reason: String,
)
    ensures
        writes@.low_key == writes.low_key@,
        writes@.low == writes.low@,
        writes@.high_key == writes.high_key@,
        writes@.high == writes.high@,
        reconciliation@.current == reconciliation.current,
        reconciliation@.rest == reconciliation.rest,
        match (reconciliation@.stage, reconciliation.stage) {
            (StageModel::Read, BalanceStage::Read) => true,
            (StageModel::WriteLow(read), BalanceStage::WriteLow(source)) => read == source@,
            (StageModel::WriteHigh(read), BalanceStage::WriteHigh(source)) => read == source@,
            _ => false,
        },
        writes_outcome(Ok(writes)) == Ok::<WritesModel, Seq<char>>(writes@),
        writes_outcome(Err(reason)) == Err::<WritesModel, Seq<char>>(reason@),
        reconciliation_model(Some(reconciliation)) == Some(reconciliation@),
        reconciliation_model(None) is None,
        reconciliation_outcome(Ok(Some(reconciliation))) == Ok::<
            Option<ReconciliationModel>,
            Seq<char>,
        >(Some(reconciliation@)),
        reconciliation_outcome(Ok(None)) == Ok::<Option<ReconciliationModel>, Seq<char>>(None),
        reconciliation_outcome(Err(reason)) == Err::<Option<ReconciliationModel>, Seq<char>>(
            reason@,
        ),
{
}

/// Requests and replies are read field by field.
pub proof fn law_requests_and_replies_are_read_as_they_are(
    request: BalanceRequest,
    reply: BalanceReply,
)
    ensures
        match (request@, request) {
            (RequestModel::Read { owner: read }, BalanceRequest::Read { owner }) => read == owner,
            (
                RequestModel::Write { key: read_key, value: read_value },
                BalanceRequest::Write { key, value },
            ) => read_key == key@ && read_value == value@,
            _ => false,
        },
        match (reply@, reply) {
            (ReplyModel::Balance(Ok(read)), BalanceReply::Balance(Ok(halves))) => read.0
                == halves.0@ && read.1 == halves.1@,
            (ReplyModel::Balance(Err(read)), BalanceReply::Balance(Err(error))) => read == error@,
            (ReplyModel::Written(Ok(_)), BalanceReply::Written(Ok(_))) => true,
            (ReplyModel::Written(Err(read)), BalanceReply::Written(Err(error))) => read == error@,
            _ => false,
        },
{
}

/// What reading a balance gave is read as it is.
pub proof fn law_balances_are_read_as_they_are(low: Felt, high: Felt, error: String)
    ensures
        balance_model(Ok((low, high))) == Ok::<(nat, nat), Seq<char>>((low@, high@)),
        balance_model(Err(error)) == Err::<(nat, nat), Seq<char>>(error@),
{
}

} // verus!

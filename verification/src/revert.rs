//! Planning of a block revert: which blocks leave, what the L1 call costs, in
//! which order the local tables are cleaned, and when the wait for the L1
//! receipt ends.

use vstd::prelude::*;
use crate::primitives::BlockNumber;

verus! {

/// Gas that the revert call is given besides the share of each block.
pub const REVERT_BASE_GAS: u64 = 200_000;

/// Gas that the revert call is given for each reverted block.
pub const REVERT_GAS_PER_BLOCK: u64 = 15_000;

/// Pause between two looks for the receipt, in milliseconds.
pub const RECEIPT_POLL_INTERVAL_MS: u64 = 100;

/// Time after which a missing receipt ends the wait, in seconds.
pub const CONFIRMATION_TIMEOUT_SECS: u64 = 1000;

/// Receipt status that the L1 node reports for a successful transaction.
pub const RECEIPT_STATUS_SUCCESS: u64 = 1;

/// What the operator asked to revert.
#[derive(Clone, Copy, Debug, PartialEq, Eq, Structural)]
pub enum RevertMode {
    /// Revert on the contract, then in storage.
    All,
    /// Revert on the contract only.
    Contract,
    /// Revert in storage only.
    Storage,
}

impl RevertMode {
    /// Whether the mode sends the revert call to the contract.
    pub open spec fn touches_contract(self) -> bool {
        self != RevertMode::Storage
    }

    /// Whether the mode cleans the local tables.
    pub open spec fn touches_storage(self) -> bool {
        self != RevertMode::Contract
    }

    /// Whether the mode sends the revert call to the contract.
    #[verifier::when_used_as_spec(touches_contract)]
    pub fn reverts_contract(self) -> (yes: bool)
        ensures
            yes == self.touches_contract(),
    {
        match self {
            RevertMode::Storage => false,
            _ => true,
        }
    }

    /// Whether the mode cleans the local tables.
    #[verifier::when_used_as_spec(touches_storage)]
    pub fn reverts_storage(self) -> (yes: bool)
        ensures
            yes == self.touches_storage(),
    {
        match self {
            RevertMode::Contract => false,
            _ => true,
        }
    }
}

/// One change to the local store during a storage revert.
#[derive(Clone, Copy, Debug, PartialEq, Eq, Structural)]
pub enum StorageRevertStep {
    /// Hand the executed transactions of the reverted blocks back to the mempool.
    ReturnExecutedTxsToMempool,
    /// Drop the committed nonces of the reverted blocks.
    ClearCommittedNonces,
    /// Remove the reverted blocks.
    RemoveBlocks,
    /// Remove the pending block.
    RemovePendingBlock,
    /// Remove the account tree caches of the reverted blocks.
    RemoveAccountTreeCache,
    /// Remove the balance updates of the reverted blocks.
    RemoveAccountBalanceUpdates,
    /// Remove the account creations of the reverted blocks.
    RemoveAccountCreates,
    /// Remove the public key updates of the reverted blocks.
    RemoveAccountPubkeyUpdates,
    /// Remove the NFT mints of the reverted blocks.
    RemoveMintNftUpdates,
    /// Remove the aggregated operations that were not yet sent to L1.
    RemoveUnprocessedAggregatedOps,
    /// Remove the aggregated operations of the reverted blocks and what binds them to L1 transactions.
    RemoveAggregateOperationsAndBindings,
    /// Remove the prover witnesses of the reverted blocks.
    RemoveWitnesses,
    /// Remove the proofs of the reverted blocks.
    RemoveProofs,
    /// Remove the aggregated proofs of the reverted blocks.
    RemoveAggregatedProofs,
    /// Remove the prover jobs of the reverted blocks.
    RemoveProverJobs,
    /// Bring the stored L1 parameters in line with the last correct block.
    UpdateEthParameters,
}

impl StorageRevertStep {
    /// Whether the step is bounded by the last correct block. The other steps
    /// empty a table that only ever holds work in flight.
    pub open spec fn bounded_by_block(self) -> bool {
        self != StorageRevertStep::RemovePendingBlock
            && self != StorageRevertStep::RemoveUnprocessedAggregatedOps
    }

    /// Whether the step is bounded by the last correct block.
    #[verifier::when_used_as_spec(bounded_by_block)]
    pub fn takes_last_block(self) -> (yes: bool)
        ensures
            yes == self.bounded_by_block(),
    {
        match self {
            StorageRevertStep::RemovePendingBlock => false,
            StorageRevertStep::RemoveUnprocessedAggregatedOps => false,
            _ => true,
        }
    }

    /// The line that reports the step as done.
    pub open spec fn report_text(self) -> Seq<char> {
        match self {
            StorageRevertStep::ReturnExecutedTxsToMempool =>
                "`mempool_txs`, `executed_transactions` tables are updated"@,
            StorageRevertStep::ClearCommittedNonces => "`committed_nonce` table is updated"@,
            StorageRevertStep::RemoveBlocks => "`block` table is cleaned"@,
            StorageRevertStep::RemovePendingBlock => "`pending_block` table is cleaned"@,
            StorageRevertStep::RemoveAccountTreeCache => "`account_tree_cache` table is cleaned"@,
            StorageRevertStep::RemoveAccountBalanceUpdates =>
                "`account_balance_updates` table is cleaned"@,
            StorageRevertStep::RemoveAccountCreates => "`account_creates` table is cleaned"@,
            StorageRevertStep::RemoveAccountPubkeyUpdates =>
                "`account_pubkey_updates` table is cleaned"@,
            StorageRevertStep::RemoveMintNftUpdates => "`mint_nft_updates` table is cleaned"@,
            StorageRevertStep::RemoveUnprocessedAggregatedOps =>
                "`eth_unprocessed_aggregated_ops` table is cleaned"@,
            StorageRevertStep::RemoveAggregateOperationsAndBindings =>
                "`aggregate_operations`, `eth_aggregated_ops_binding`, `eth_tx_hashes`, `eth_operations` tables are cleaned"@,
            StorageRevertStep::RemoveWitnesses => "`block_witness` table is cleaned"@,
            StorageRevertStep::RemoveProofs => "`proofs` table is cleaned"@,
            StorageRevertStep::RemoveAggregatedProofs => "`aggregated_proofs` table is cleaned"@,
            StorageRevertStep::RemoveProverJobs => "`prover_job_queue` table is cleaned"@,
            StorageRevertStep::UpdateEthParameters => "`eth_parameters` table is updated"@,
        }
    }

    /// The line that reports the step as done.
    pub fn report(self) -> (line: &'static str)
        ensures
            line@ == self.report_text(),
    {
        match self {
            StorageRevertStep::ReturnExecutedTxsToMempool =>
                "`mempool_txs`, `executed_transactions` tables are updated",
            StorageRevertStep::ClearCommittedNonces => "`committed_nonce` table is updated",
            StorageRevertStep::RemoveBlocks => "`block` table is cleaned",
            StorageRevertStep::RemovePendingBlock => "`pending_block` table is cleaned",
            StorageRevertStep::RemoveAccountTreeCache => "`account_tree_cache` table is cleaned",
            StorageRevertStep::RemoveAccountBalanceUpdates =>
                "`account_balance_updates` table is cleaned",
            StorageRevertStep::RemoveAccountCreates => "`account_creates` table is cleaned",
            StorageRevertStep::RemoveAccountPubkeyUpdates =>
                "`account_pubkey_updates` table is cleaned",
            StorageRevertStep::RemoveMintNftUpdates => "`mint_nft_updates` table is cleaned",
            StorageRevertStep::RemoveUnprocessedAggregatedOps =>
                "`eth_unprocessed_aggregated_ops` table is cleaned",
            StorageRevertStep::RemoveAggregateOperationsAndBindings =>
                "`aggregate_operations`, `eth_aggregated_ops_binding`, `eth_tx_hashes`, `eth_operations` tables are cleaned",
            StorageRevertStep::RemoveWitnesses => "`block_witness` table is cleaned",
            StorageRevertStep::RemoveProofs => "`proofs` table is cleaned",
            StorageRevertStep::RemoveAggregatedProofs => "`aggregated_proofs` table is cleaned",
            StorageRevertStep::RemoveProverJobs => "`prover_job_queue` table is cleaned",
            StorageRevertStep::UpdateEthParameters => "`eth_parameters` table is updated",
        }
    }
}

/// The steps of a storage revert, in the order in which one database
/// transaction performs them.
pub open spec fn storage_revert_sequence() -> Seq<StorageRevertStep> {
    seq![
        StorageRevertStep::ReturnExecutedTxsToMempool,
        StorageRevertStep::ClearCommittedNonces,
        StorageRevertStep::RemoveBlocks,
        StorageRevertStep::RemovePendingBlock,
        StorageRevertStep::RemoveAccountTreeCache,
        StorageRevertStep::RemoveAccountBalanceUpdates,
        StorageRevertStep::RemoveAccountCreates,
        StorageRevertStep::RemoveAccountPubkeyUpdates,
        StorageRevertStep::RemoveMintNftUpdates,
        StorageRevertStep::RemoveUnprocessedAggregatedOps,
        StorageRevertStep::RemoveAggregateOperationsAndBindings,
        StorageRevertStep::RemoveWitnesses,
        StorageRevertStep::RemoveProofs,
        StorageRevertStep::RemoveAggregatedProofs,
        StorageRevertStep::RemoveProverJobs,
        StorageRevertStep::UpdateEthParameters,
    ]
}

/// The steps of a storage revert, in order. The caller opens one database
/// transaction, performs every step in it and commits.
pub fn revert_blocks_in_storage() -> (plan: Vec<StorageRevertStep>)
    ensures
        plan@ == storage_revert_sequence(),
{
    let mut plan: Vec<StorageRevertStep> = Vec::new();
    plan.push(StorageRevertStep::ReturnExecutedTxsToMempool);
    plan.push(StorageRevertStep::ClearCommittedNonces);
    plan.push(StorageRevertStep::RemoveBlocks);
    plan.push(StorageRevertStep::RemovePendingBlock);
    plan.push(StorageRevertStep::RemoveAccountTreeCache);
    plan.push(StorageRevertStep::RemoveAccountBalanceUpdates);
    plan.push(StorageRevertStep::RemoveAccountCreates);
    plan.push(StorageRevertStep::RemoveAccountPubkeyUpdates);
    plan.push(StorageRevertStep::RemoveMintNftUpdates);
    plan.push(StorageRevertStep::RemoveUnprocessedAggregatedOps);
    plan.push(StorageRevertStep::RemoveAggregateOperationsAndBindings);
    plan.push(StorageRevertStep::RemoveWitnesses);
    plan.push(StorageRevertStep::RemoveProofs);
    plan.push(StorageRevertStep::RemoveAggregatedProofs);
    plan.push(StorageRevertStep::RemoveProverJobs);
    plan.push(StorageRevertStep::UpdateEthParameters);
    assert(plan@ =~= storage_revert_sequence());
    plan
}

/// A storage revert performs every step once: no table is left out and none
/// is cleaned twice. The last step brings the stored L1 parameters in line,
/// after every table is cleaned.
pub proof fn lemma_storage_revert_is_complete(step: StorageRevertStep)
    ensures
        exists|i: int|
            0 <= i < storage_revert_sequence().len() && #[trigger] storage_revert_sequence()[i]
                == step,
        forall|i: int, j: int|
            0 <= i < j < storage_revert_sequence().len() ==> #[trigger] storage_revert_sequence()[i]
                != #[trigger] storage_revert_sequence()[j],
        storage_revert_sequence().last() == StorageRevertStep::UpdateEthParameters,
{
    let plan = storage_revert_sequence();
    let at: int = match step {
        StorageRevertStep::ReturnExecutedTxsToMempool => 0,
        StorageRevertStep::ClearCommittedNonces => 1,
        StorageRevertStep::RemoveBlocks => 2,
        StorageRevertStep::RemovePendingBlock => 3,
        StorageRevertStep::RemoveAccountTreeCache => 4,
        StorageRevertStep::RemoveAccountBalanceUpdates => 5,
        StorageRevertStep::RemoveAccountCreates => 6,
        StorageRevertStep::RemoveAccountPubkeyUpdates => 7,
        StorageRevertStep::RemoveMintNftUpdates => 8,
        StorageRevertStep::RemoveUnprocessedAggregatedOps => 9,
        StorageRevertStep::RemoveAggregateOperationsAndBindings => 10,
        StorageRevertStep::RemoveWitnesses => 11,
        StorageRevertStep::RemoveProofs => 12,
        StorageRevertStep::RemoveAggregatedProofs => 13,
        StorageRevertStep::RemoveProverJobs => 14,
        StorageRevertStep::UpdateEthParameters => 15,
    };
    assert(plan[at] == step);
}

/// The step that follows once `done` steps of a storage revert are performed,
/// or `None` when the transaction is ready to be committed.
pub fn next_storage_revert_step(done: usize) -> (next: Option<StorageRevertStep>)
    ensures
        done < storage_revert_sequence().len() ==> next == Some(
            storage_revert_sequence()[done as int],
        ),
        done >= storage_revert_sequence().len() ==> next is None,
{
    let plan = revert_blocks_in_storage();
    if done < plan.len() {
        Some(plan[done])
    } else {
        None
    }
}

/// The numbers of the `count` blocks that end with `last_committed`, newest first.
pub open spec fn descending_blocks(last_committed: BlockNumber, count: nat) -> Seq<BlockNumber> {
    Seq::new(count, |i: int| BlockNumber((last_committed.0 - i) as u32))
}

/// The numbers of the blocks to fetch for a revert of the `blocks_to_revert`
/// newest blocks: from `last_committed` downwards, the order in which the
/// contract takes their descriptors.
pub fn get_blocks(last_committed: BlockNumber, blocks_to_revert: u32) -> (blocks: Vec<BlockNumber>)
    requires
        blocks_to_revert <= last_committed.0,
    ensures
        blocks@ == descending_blocks(last_committed, blocks_to_revert as nat),
{
    let mut blocks: Vec<BlockNumber> = Vec::new();
    let mut taken: u32 = 0;
    while taken < blocks_to_revert
        invariant
            taken <= blocks_to_revert <= last_committed.0,
            blocks@ == descending_blocks(last_committed, taken as nat),
        decreases blocks_to_revert - taken,
    {
        blocks.push(BlockNumber(last_committed.0 - taken));
        taken += 1;
        assert(blocks@ =~= descending_blocks(last_committed, taken as nat));
    }
    blocks
}

/// Gas limit of a revert call for `block_count` blocks.
pub open spec fn revert_gas(block_count: nat) -> nat {
    REVERT_BASE_GAS as nat + REVERT_GAS_PER_BLOCK as nat * block_count
}

/// Gas limit of a revert call for `block_count` blocks.
pub fn revert_gas_limit(block_count: u32) -> (gas: u64)
    ensures
        gas == revert_gas(block_count as nat),
{
    assert(REVERT_GAS_PER_BLOCK as nat * block_count as nat <= 15_000 * 0xffff_ffff) by (nonlinear_arith)
        requires
            REVERT_GAS_PER_BLOCK == 15_000,
            block_count <= 0xffff_ffff,
    ;
    REVERT_BASE_GAS + REVERT_GAS_PER_BLOCK * (block_count as u64)
}

/// Why a revert is refused before anything is changed.
#[derive(Clone, Copy, Debug, PartialEq, Eq, Structural)]
pub enum RevertError {
    /// A block above the last correct one is already verified on L1.
    AlreadyVerified,
    /// No committed block lies above the last correct one.
    NothingToRevert,
}

impl RevertError {
    /// The text that tells the operator why the revert was refused.
    pub open spec fn message_text(self) -> Seq<char> {
        match self {
            RevertError::AlreadyVerified => "Some blocks to revert are already verified"@,
            RevertError::NothingToRevert => "There are no committed blocks to revert"@,
        }
    }

    /// The text that tells the operator why the revert was refused.
    pub fn message(self) -> (text: &'static str)
        ensures
            text@ == self.message_text(),
    {
        match self {
            RevertError::AlreadyVerified => "Some blocks to revert are already verified",
            RevertError::NothingToRevert => "There are no committed blocks to revert",
        }
    }
}

/// The call that reverts blocks on the contract.
#[derive(Clone, Debug, PartialEq, Eq)]
pub struct ContractRevert {
    /// The blocks whose descriptors the call carries, newest first.
    pub blocks: Vec<BlockNumber>,
    /// The gas limit of the call.
    pub gas_limit: u64,
}

/// What a revert does, once its preconditions hold.
#[derive(Clone, Debug, PartialEq, Eq)]
pub struct RevertPlan {
    /// The block after which everything is reverted.
    pub last_correct_block: BlockNumber,
    /// The call to the contract, where the mode asks for one.
    pub contract: Option<ContractRevert>,
    /// Whether the local tables are cleaned.
    pub storage: bool,
}

/// Whether a revert to `last_correct_block` is refused, and why.
pub open spec fn revert_refusal(
    last_correct_block: u32,
    last_committed: BlockNumber,
    last_verified: BlockNumber,
) -> Option<RevertError> {
    if last_verified.0 > last_correct_block {
        Some(RevertError::AlreadyVerified)
    } else if last_committed.0 <= last_correct_block {
        Some(RevertError::NothingToRevert)
    } else {
        None
    }
}

/// Whether `plan` is the revert to `last_correct_block` in the given mode.
pub open spec fn is_revert_plan(
    plan: RevertPlan,
    mode: RevertMode,
    last_correct_block: u32,
    last_committed: BlockNumber,
) -> bool {
    let count = (last_committed.0 - last_correct_block) as nat;
    &&& plan.last_correct_block == BlockNumber(last_correct_block)
    &&& plan.storage == mode.touches_storage()
    &&& plan.contract is Some == mode.touches_contract()
    &&& plan.contract matches Some(call) ==> {
        &&& call.blocks@ == descending_blocks(last_committed, count)
        &&& call.gas_limit == revert_gas(count)
    }
}

/// Checks the preconditions of a revert and lays out what it does. A verified
/// block is never reverted, and a revert needs a committed block above the
/// last correct one.
pub fn plan_revert(
    mode: RevertMode,
    last_correct_block: u32,
    last_committed: BlockNumber,
    last_verified: BlockNumber,
) -> (planned: Result<RevertPlan, RevertError>)
    ensures
        match planned {
            Ok(plan) => revert_refusal(last_correct_block, last_committed, last_verified) is None
                && is_revert_plan(plan, mode, last_correct_block, last_committed),
            Err(e) => revert_refusal(last_correct_block, last_committed, last_verified) == Some(e),
        },
{
    if last_verified.0 > last_correct_block {
        return Err(RevertError::AlreadyVerified);
    }
    if last_committed.0 <= last_correct_block {
        return Err(RevertError::NothingToRevert);
    }
    let count: u32 = last_committed.0 - last_correct_block;
    let contract = if mode.reverts_contract() {
        Some(ContractRevert { blocks: get_blocks(last_committed, count), gas_limit: revert_gas_limit(count) })
    } else {
        None
    };
    Ok(RevertPlan {
        last_correct_block: BlockNumber(last_correct_block),
        contract,
        storage: mode.reverts_storage(),
    })
}

/// What to do after a look for the receipt of the revert transaction.
#[derive(Clone, Copy, Debug, PartialEq, Eq, Structural)]
pub enum ConfirmationStep {
    /// The receipt is there: the wait is over.
    Confirmed,
    /// No receipt, and the deadline has passed.
    TimedOut,
    /// No receipt yet: pause for the poll interval and look again.
    PollAgain,
}

/// Whether a wait that has lasted `elapsed_secs` seconds and `elapsed_nanos`
/// nanoseconds is past the confirmation deadline.
pub open spec fn past_deadline(elapsed_secs: u64, elapsed_nanos: u32) -> bool {
    elapsed_secs > CONFIRMATION_TIMEOUT_SECS || (elapsed_secs == CONFIRMATION_TIMEOUT_SECS
        && elapsed_nanos > 0)
}

/// Decides how the wait for the receipt goes on after one look for it. A
/// receipt ends the wait even when it arrives after the deadline.
pub fn confirmation_step(receipt_found: bool, elapsed_secs: u64, elapsed_nanos: u32) -> (step:
    ConfirmationStep)
    ensures
        receipt_found ==> step == ConfirmationStep::Confirmed,
        !receipt_found && past_deadline(elapsed_secs, elapsed_nanos) ==> step
            == ConfirmationStep::TimedOut,
        !receipt_found && !past_deadline(elapsed_secs, elapsed_nanos) ==> step
            == ConfirmationStep::PollAgain,
{
    if receipt_found {
        ConfirmationStep::Confirmed
    } else if elapsed_secs > CONFIRMATION_TIMEOUT_SECS || (elapsed_secs
        == CONFIRMATION_TIMEOUT_SECS && elapsed_nanos > 0) {
        ConfirmationStep::TimedOut
    } else {
        ConfirmationStep::PollAgain
    }
}

/// Whether a receipt with this status reports a successful transaction.
pub fn receipt_succeeded(status: Option<u64>) -> (ok: bool)
    ensures
        ok == (status == Some(RECEIPT_STATUS_SUCCESS)),
{
    match status {
        Some(s) => s == RECEIPT_STATUS_SUCCESS,
        None => false,
    }
}

} // verus!

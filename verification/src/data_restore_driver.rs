//! The restore driver: the state it carries between iterations, and the
//! decisions of its recovery and of its steady loop. The driver performs no
//! chain or database call itself; the caller does, and hands in what came back.

use vstd::prelude::*;
use crate::account::{Account, AccountUpdate};
use crate::checkpoint::StorageUpdateState;
use crate::error::ErrorKind;
use crate::events_state::{
    also_verified, kept_after, sorted_by_block, BlockEvent, EventsState, PriorityOpData, absorbed,
    keep_after, sifted,
};
use crate::genesis::{
    build_genesis_state, genesis_journal, is_nft_storage_account, is_special_token, NftParams,
};
use crate::primitives::{AccountId, Address, BlockNumber, H256};
use crate::rollup_ops::OpsCollector;
use crate::tokens::Token;
use crate::tree_state::{
    block_refusal, priority_count, total_chunks, AppliedBlock, RollupOpsBlock, TreeError, TreeState,
};

verus! {

/// Seconds that the steady loop rests after an iteration that watched no new L1 block.
pub const IDLE_SLEEP_SECS: u64 = 5;

/// The block chunk sizes that a version of the contract admits.
#[derive(Debug, Clone, PartialEq, Eq)]
pub struct ChunkSizes {
    /// The version of the contract.
    pub contract_version: u32,
    /// The sizes that a block may have under that version.
    pub sizes: Vec<u64>,
}

/// Why a list of blocks was not applied to its end.
#[derive(Clone, Copy, Debug, PartialEq, Eq, Structural)]
pub enum UpdateError {
    /// The block does not say under which contract version it was committed.
    MissingContractVersion,
    /// No chunk sizes are known for the block's contract version.
    UnknownContractVersion { version: u32 },
    /// The tree refused the block.
    Tree { error: TreeError },
}

impl UpdateError {
    /// The kind of failure: a block without a known contract version does
    /// not decode; a refusal of the tree has the kind that the tree gives it.
    pub open spec fn kind_of(self) -> ErrorKind {
        match self {
            UpdateError::Tree { error } => error.kind_of(),
            _ => ErrorKind::Decode,
        }
    }

    /// The kind of failure.
    #[verifier::when_used_as_spec(kind_of)]
    pub fn kind(self) -> (kind: ErrorKind)
        ensures
            kind == self.kind_of(),
    {
        match self {
            UpdateError::Tree { error } => error.kind(),
            _ => ErrorKind::Decode,
        }
    }
}

/// A failed tree update ends the restore: none of its errors is tried again.
pub proof fn lemma_update_errors_are_fatal(error: UpdateError, in_transaction: bool)
    ensures
        error.kind_of().is_fatal_spec(in_transaction),
{
}

/// What to replay on top of the loaded tree.
#[derive(Clone, Copy, Debug, PartialEq, Eq, Structural)]
pub enum ReplayStep {
    /// Decode the operations from the saved events, save them, and apply them.
    DecodeFromEvents,
    /// Load the saved operations and apply them.
    LoadSavedOps,
    /// Nothing is left to replay.
    Nothing,
}

/// How loading the state ended.
#[derive(Clone, Copy, Debug, PartialEq, Eq, Structural)]
pub struct LoadOutcome {
    /// Whether the restore is finished: in finite mode, the tree has reached
    /// the last block that is verified on L1.
    pub is_finished: bool,
    /// Whether the tree cache is to be saved, because none was found.
    pub save_tree_cache: bool,
}

/// What the steady loop remembers between iterations.
#[derive(Clone, Copy, Debug, PartialEq, Eq, Structural)]
pub struct UpdateLoop {
    /// The last watched L1 block at the end of the previous iteration.
    pub last_watched_block: u64,
    /// Whether the tree had the expected final root hash after some iteration.
    pub final_hash_was_found: bool,
}

/// What the steady loop does after blocks were applied and saved.
#[derive(Clone, Copy, Debug, PartialEq, Eq, Structural)]
pub enum LoopVerdict {
    /// Go on with the next iteration.
    Continue,
    /// The restore is finished.
    Finished,
    /// The tree has reached the last verified block, but never had the
    /// expected final root hash: the restore has failed.
    FinalHashNotMet,
}

/// Why the genesis state could not be set from the genesis transaction.
#[derive(Clone, Copy, Debug, PartialEq, Eq, Structural)]
pub enum GenesisError {
    /// The genesis transaction is in no block.
    NoBlockNumber,
}

/// What genesis writes to storage.
#[derive(Debug, Clone, PartialEq)]
pub struct GenesisRecords {
    /// The L1 block from which events are watched.
    pub last_watched_eth_block_number: u64,
    /// The token that stands for the NFTs.
    pub special_token: Token,
    /// The journal of the accounts that genesis creates.
    pub account_updates: Vec<(AccountId, AccountUpdate)>,
}

/// The restore driver's state.
#[derive(Debug, Clone, PartialEq, Eq)]
pub struct DataRestoreDriver {
    /// The L1 blocks at which an upgrade of the contract took effect.
    pub contract_upgrade_eth_blocks: Vec<u64>,
    /// The version of the contract as it was deployed.
    pub init_contract_version: u32,
    /// The events of the rollup contract.
    pub events_state: EventsState,
    /// The accounts of the rollup.
    pub tree_state: TreeState,
    /// The number of L1 blocks that one scan covers.
    pub eth_blocks_step: u64,
    /// The distance that scans keep from the L1 head.
    pub end_eth_blocks_offset: u64,
    /// Whether the driver stops once the tree has reached the last block
    /// that is verified on L1.
    pub finite_mode: bool,
    /// The root hash that the tree is expected to have at some point of a
    /// restore in finite mode.
    pub final_hash: Option<H256>,
    /// The number of priority operations that the driver has processed.
    pub last_priority_op_serial_id: u64,
}

/// The chunk sizes that the last entry of `table` for `version` admits.
pub open spec fn sizes_of(table: Seq<ChunkSizes>, version: u32) -> Option<Seq<u64>>
    decreases table.len(),
{
    if table.len() == 0 {
        None
    } else if table.last().contract_version == version {
        Some(table.last().sizes@)
    } else {
        sizes_of(table.drop_last(), version)
    }
}

/// The priority operations in the first `upto` of `blocks`.
pub open spec fn priority_total(blocks: Seq<RollupOpsBlock>, upto: int) -> nat
    decreases upto,
{
    if upto <= 0 {
        0
    } else {
        priority_total(blocks, upto - 1) + priority_count(blocks[upto - 1].ops@)
    }
}

/// Why `block` is not applied to a tree at block `current`, if it is not.
pub open spec fn block_error(
    current: BlockNumber,
    tree_counter: u64,
    serial_id: u64,
    block: RollupOpsBlock,
    table: Seq<ChunkSizes>,
) -> Option<UpdateError> {
    match block.contract_version {
        None => Some(UpdateError::MissingContractVersion),
        Some(version) => match sizes_of(table, version) {
            None => Some(UpdateError::UnknownContractVersion { version }),
            Some(sizes) => match block_refusal(current, tree_counter, serial_id, block, sizes) {
                Some(error) => Some(UpdateError::Tree { error }),
                None => None,
            },
        },
    }
}

/// What to replay for a checkpoint.
pub open spec fn replay_of(state: StorageUpdateState) -> ReplayStep {
    match state {
        StorageUpdateState::Events => ReplayStep::DecodeFromEvents,
        StorageUpdateState::Operations => ReplayStep::LoadSavedOps,
        StorageUpdateState::Complete => ReplayStep::Nothing,
    }
}

/// The chunk sizes that the last entry of `table` for `version` admits.
pub fn chunk_sizes_for(table: &Vec<ChunkSizes>, version: u32) -> (sizes: Option<&Vec<u64>>)
    ensures
        match sizes {
            Some(s) => sizes_of(table@, version) == Some(s@),
            None => sizes_of(table@, version) is None,
        },
{
    let mut at: usize = table.len();
    assert(table@.subrange(0, at as int) =~= table@);
    while at > 0 && table[at - 1].contract_version != version
        invariant
            at <= table.len(),
            sizes_of(table@, version) == sizes_of(table@.subrange(0, at as int), version),
        decreases at,
    {
        proof {
            let head = table@.subrange(0, at as int);
            assert(head.drop_last() =~= table@.subrange(0, at - 1));
            assert(head.last() == table@[at - 1]);
        }
        at -= 1;
    }
    if at == 0 {
        None
    } else {
        proof {
            let head = table@.subrange(0, at as int);
            assert(head.last() == table@[at - 1]);
        }
        Some(&table[at - 1].sizes)
    }
}

impl DataRestoreDriver {
    /// A driver with no events and an empty tree, that has processed no
    /// priority operation.
    pub fn new(
        contract_upgrade_eth_blocks: Vec<u64>,
        init_contract_version: u32,
        eth_blocks_step: u64,
        end_eth_blocks_offset: u64,
        finite_mode: bool,
        final_hash: Option<H256>,
    ) -> (driver: DataRestoreDriver)
        ensures
            driver.contract_upgrade_eth_blocks == contract_upgrade_eth_blocks,
            driver.init_contract_version == init_contract_version,
            driver.eth_blocks_step == eth_blocks_step,
            driver.end_eth_blocks_offset == end_eth_blocks_offset,
            driver.finite_mode == finite_mode,
            driver.final_hash == final_hash,
            driver.last_priority_op_serial_id == 0,
            driver.events_state.committed_events@.len() == 0,
            driver.events_state.verified_events@.len() == 0,
            driver.events_state.priority_op_data@.len() == 0,
            driver.events_state.last_watched_eth_block_number == 0,
            driver.tree_state.block_number == BlockNumber(0),
            driver.tree_state.accounts@ == Map::<u32, Account>::empty(),
            driver.tree_state.current_unprocessed_priority_op == 0,
    {
        DataRestoreDriver {
            contract_upgrade_eth_blocks,
            init_contract_version,
            events_state: EventsState::new(),
            tree_state: TreeState::new(),
            eth_blocks_step,
            end_eth_blocks_offset,
            finite_mode,
            final_hash,
            last_priority_op_serial_id: 0,
        }
    }

    /// Sets the genesis state from what the genesis transaction holds: the L1
    /// block it is in, from which events are watched, and the address of the
    /// fee account.
    pub fn set_genesis_state_from_eth(
        &mut self,
        genesis_tx_block_number: Option<u64>,
        genesis_fee_account_address: Address,
        params: NftParams,
    ) -> (records: Result<GenesisRecords, GenesisError>)
        ensures
            match records {
                Ok(r) => {
                    &&& genesis_tx_block_number == Some(r.last_watched_eth_block_number)
                    &&& final(self).events_state.last_watched_eth_block_number
                        == r.last_watched_eth_block_number
                    &&& is_special_token(r.special_token, params)
                    &&& exists|fee_account: Account|
                        {
                            &&& fee_account.is_fresh(genesis_fee_account_address)
                            &&& r.account_updates@ == genesis_journal(fee_account, params)
                        }
                    &&& final(self).tree_state.block_number == BlockNumber(0)
                    &&& final(self).tree_state.accounts@.dom() == set![
                        0u32,
                        params.nft_storage_account_id.0,
                    ]
                },
                Err(e) => {
                    &&& genesis_tx_block_number is None
                    &&& e == GenesisError::NoBlockNumber
                    &&& *final(self) == *old(self)
                },
            },
    {
        let genesis_eth_block_number: u64 = match genesis_tx_block_number {
            Some(n) => n,
            None => {
                return Err(GenesisError::NoBlockNumber);
            },
        };
        self.events_state.last_watched_eth_block_number = genesis_eth_block_number;
        let genesis_fee_account = Account::default_with_address(genesis_fee_account_address);
        let ghost fee = genesis_fee_account;
        let records = self.set_genesis_state(genesis_eth_block_number, genesis_fee_account, params);
        assert(fee.is_fresh(genesis_fee_account_address) && records.account_updates@
            == genesis_journal(fee, params));
        Ok(records)
    }

    /// Sets the genesis state: the tree holds the fee account under
    /// identifier zero and the account that holds the NFTs, at block zero.
    /// What is returned is to be saved in one database transaction: the
    /// empty events state at the genesis L1 block, the special token, and
    /// the journal.
    pub fn set_genesis_state(
        &mut self,
        genesis_eth_block_number: u64,
        genesis_fee_account: Account,
        params: NftParams,
    ) -> (records: GenesisRecords)
        ensures
            records.last_watched_eth_block_number == genesis_eth_block_number,
            is_special_token(records.special_token, params),
            records.account_updates@ == genesis_journal(genesis_fee_account, params),
            final(self).tree_state.block_number == BlockNumber(0),
            final(self).tree_state.last_fee_account == AccountId(0),
            final(self).tree_state.current_unprocessed_priority_op == 0,
            final(self).tree_state.accounts@.dom() == set![0u32, params.nft_storage_account_id.0],
            is_nft_storage_account(
                final(self).tree_state.accounts@[params.nft_storage_account_id.0],
                params,
            ),
            params.nft_storage_account_id.0 != 0 ==> final(self).tree_state.accounts@[0]
                == genesis_fee_account,
            final(self).events_state == old(self).events_state,
            final(self).last_priority_op_serial_id == old(self).last_priority_op_serial_id,
            final(self).contract_upgrade_eth_blocks == old(self).contract_upgrade_eth_blocks,
            final(self).init_contract_version == old(self).init_contract_version,
            final(self).eth_blocks_step == old(self).eth_blocks_step,
            final(self).end_eth_blocks_offset == old(self).end_eth_blocks_offset,
            final(self).finite_mode == old(self).finite_mode,
            final(self).final_hash == old(self).final_hash,
    {
        let genesis = build_genesis_state(genesis_eth_block_number, genesis_fee_account, params);
        self.tree_state = genesis.tree_state;
        GenesisRecords {
            last_watched_eth_block_number: genesis.last_watched_eth_block_number,
            special_token: genesis.special_token,
            account_updates: genesis.account_updates,
        }
    }

    /// Takes over the state that was read from storage, and says what is to
    /// be replayed on top of it: after a checkpoint at `Events` the
    /// operations are decoded from the saved events, after one at
    /// `Operations` the saved operations are loaded, and a complete
    /// checkpoint leaves nothing to replay.
    pub fn load_state_from_storage(
        &mut self,
        state: StorageUpdateState,
        events_state: EventsState,
        tree_state: TreeState,
    ) -> (replay: ReplayStep)
        ensures
            replay == replay_of(state),
            final(self).events_state == events_state,
            final(self).tree_state == tree_state,
            final(self).last_priority_op_serial_id == old(self).last_priority_op_serial_id,
            final(self).contract_upgrade_eth_blocks == old(self).contract_upgrade_eth_blocks,
            final(self).init_contract_version == old(self).init_contract_version,
            final(self).eth_blocks_step == old(self).eth_blocks_step,
            final(self).end_eth_blocks_offset == old(self).end_eth_blocks_offset,
            final(self).finite_mode == old(self).finite_mode,
            final(self).final_hash == old(self).final_hash,
    {
        self.events_state = events_state;
        self.tree_state = tree_state;
        match state {
            StorageUpdateState::Events => ReplayStep::DecodeFromEvents,
            StorageUpdateState::Operations => ReplayStep::LoadSavedOps,
            StorageUpdateState::Complete => ReplayStep::Nothing,
        }
    }

    /// Ends the loading of the state, once the replay is done: the driver
    /// goes on from the largest serial number of a stored priority
    /// operation. The restore is finished where, in finite mode, the tree
    /// stands at the last block that is verified on L1. The tree cache is to
    /// be saved where the tree was not built from one.
    pub fn finish_loading(
        &mut self,
        max_priority_op_serial_id: u64,
        total_verified_blocks: u32,
        is_cached: bool,
    ) -> (outcome: LoadOutcome)
        ensures
            outcome.is_finished == (old(self).finite_mode && total_verified_blocks == old(
                self,
            ).tree_state.block_number.0),
            outcome.save_tree_cache == !is_cached,
            final(self).last_priority_op_serial_id == max_priority_op_serial_id,
            final(self).events_state == old(self).events_state,
            final(self).tree_state == old(self).tree_state,
            final(self).contract_upgrade_eth_blocks == old(self).contract_upgrade_eth_blocks,
            final(self).init_contract_version == old(self).init_contract_version,
            final(self).eth_blocks_step == old(self).eth_blocks_step,
            final(self).end_eth_blocks_offset == old(self).end_eth_blocks_offset,
            final(self).finite_mode == old(self).finite_mode,
            final(self).final_hash == old(self).final_hash,
    {
        self.last_priority_op_serial_id = max_priority_op_serial_id;
        LoadOutcome {
            is_finished: self.finite_mode && total_verified_blocks == self.tree_state.block_number.0,
            save_tree_cache: !is_cached,
        }
    }

    /// What the steady loop remembers as it starts.
    pub fn run_state_update(&self) -> (state: UpdateLoop)
        ensures
            state.last_watched_block == self.events_state.last_watched_eth_block_number,
            !state.final_hash_was_found,
    {
        UpdateLoop {
            last_watched_block: self.events_state.last_watched_eth_block_number,
            final_hash_was_found: false,
        }
    }

    /// Decides how the steady loop goes on after blocks were applied and
    /// saved. The root hash is held against the expected final hash after
    /// every such iteration, since the expected hash need not be that of the
    /// last block. In finite mode the loop ends once the tree stands at the
    /// last block that is verified on L1; it has then failed if a final hash
    /// was expected and never met.
    pub fn after_blocks_applied(
        &self,
        state: &mut UpdateLoop,
        root_hash: &H256,
        total_verified_blocks: u32,
    ) -> (verdict: LoopVerdict)
        ensures
            final(state).last_watched_block == old(state).last_watched_block,
            final(state).final_hash_was_found == (old(state).final_hash_was_found || (
            self.final_hash matches Some(h) && h@ == root_hash@)),
            verdict == if !(self.finite_mode && self.tree_state.block_number.0
                == total_verified_blocks) {
                LoopVerdict::Continue
            } else if self.final_hash is Some && !final(state).final_hash_was_found {
                LoopVerdict::FinalHashNotMet
            } else {
                LoopVerdict::Finished
            },
    {
        match &self.final_hash {
            Some(expected) => {
                if expected.same_as(root_hash) {
                    state.final_hash_was_found = true;
                }
            },
            None => {},
        }
        if self.finite_mode && self.tree_state.block_number.0 == total_verified_blocks {
            if self.final_hash.is_some() && !state.final_hash_was_found {
                LoopVerdict::FinalHashNotMet
            } else {
                LoopVerdict::Finished
            }
        } else {
            LoopVerdict::Continue
        }
    }

    /// Ends an iteration of the steady loop. Says whether the loop is to rest
    /// before the next iteration, which it is where the iteration watched no
    /// new L1 block.
    pub fn end_of_iteration(&self, state: &mut UpdateLoop) -> (rest: bool)
        ensures
            rest == (old(state).last_watched_block
                == self.events_state.last_watched_eth_block_number),
            final(state).last_watched_block == self.events_state.last_watched_eth_block_number,
            final(state).final_hash_was_found == old(state).final_hash_was_found,
    {
        if state.last_watched_block == self.events_state.last_watched_eth_block_number {
            true
        } else {
            state.last_watched_block = self.events_state.last_watched_eth_block_number;
            false
        }
    }

    /// Takes in the events of a scanned window. Says whether there are new
    /// block events, so that operations are to be fetched.
    pub fn update_events_state(
        &mut self,
        block_events: &Vec<BlockEvent>,
        priority_op_data: &Vec<PriorityOpData>,
        last_watched_eth_block_number: u64,
    ) -> (progress: bool)
        ensures
            progress == (block_events@.len() > 0),
            (final(self).events_state.committed_events@, final(self).events_state.verified_events@)
                == absorbed(
                (old(self).events_state.committed_events@, old(self).events_state.verified_events@),
                block_events@,
            ),
            final(self).events_state.priority_op_data@ == old(self).events_state.priority_op_data@
                + priority_op_data@,
            final(self).events_state.last_watched_eth_block_number == last_watched_eth_block_number,
            final(self).tree_state == old(self).tree_state,
            final(self).last_priority_op_serial_id == old(self).last_priority_op_serial_id,
            final(self).contract_upgrade_eth_blocks == old(self).contract_upgrade_eth_blocks,
            final(self).init_contract_version == old(self).init_contract_version,
            final(self).eth_blocks_step == old(self).eth_blocks_step,
            final(self).end_eth_blocks_offset == old(self).end_eth_blocks_offset,
            final(self).finite_mode == old(self).finite_mode,
            final(self).final_hash == old(self).final_hash,
    {
        self.events_state.update_events_state(
            block_events,
            priority_op_data,
            last_watched_eth_block_number,
        );
        block_events.len() > 0
    }

    /// The events that are ready to drive the tree and speak of a block
    /// above the tree's, in rising order of their blocks, and a collector for
    /// their operation blocks. An event of a block that the tree holds
    /// already is left out, so that no block is applied twice.
    pub fn get_new_operation_blocks_from_events(&self) -> (start: (Vec<BlockEvent>, OpsCollector))
        ensures
            start.0@ == kept_after(
                sorted_by_block(
                    also_verified(
                        self.events_state.committed_events@,
                        self.events_state.verified_events@,
                    ),
                ),
                self.tree_state.block_number.0,
            ),
            forall|i: int|
                0 <= i < start.0@.len() ==> (#[trigger] start.0@[i]).block_num.0
                    > self.tree_state.block_number.0,
            start.1.tree_block == self.tree_state.block_number,
            start.1.last_processed_block == self.tree_state.block_number,
            start.1.last_event_tx_hash is None,
            start.1.last_tx_blocks@.len() == 0,
            start.1.blocks@.len() == 0,
            start.1.well_formed(),
    {
        let ready: Vec<BlockEvent> = self.events_state.get_only_verified_committed_events();
        let fresh: Vec<BlockEvent> = keep_after(&ready, self.tree_state.block_number.0);
        (fresh, OpsCollector::new(self.tree_state.block_number))
    }

    /// Applies `new_ops_blocks` to the tree, in order, each under the chunk
    /// sizes of its contract version. Every applied block raises the tree's
    /// block number by one, and its priority operations take the next serial
    /// numbers. The first block that is refused ends the update; the blocks
    /// before it stay applied, and the error comes with the place of the
    /// refused block.
    pub fn update_tree_state(
        &mut self,
        new_ops_blocks: &Vec<RollupOpsBlock>,
        chunk_sizes: &Vec<ChunkSizes>,
    ) -> (updated: Result<Vec<AppliedBlock>, (usize, UpdateError)>)
        ensures
            final(self).tree_state.accounts == old(self).tree_state.accounts,
            final(self).events_state == old(self).events_state,
            final(self).contract_upgrade_eth_blocks == old(self).contract_upgrade_eth_blocks,
            final(self).init_contract_version == old(self).init_contract_version,
            final(self).eth_blocks_step == old(self).eth_blocks_step,
            final(self).end_eth_blocks_offset == old(self).end_eth_blocks_offset,
            final(self).finite_mode == old(self).finite_mode,
            final(self).final_hash == old(self).final_hash,
            match updated {
                Ok(applied) => {
                    &&& applied@.len() == new_ops_blocks@.len()
                    &&& applied_in_order(*old(self), new_ops_blocks@, applied@)
                    &&& stands_after(*old(self), *final(self), new_ops_blocks@, applied@.len() as int)
                },
                Err((at, error)) => {
                    &&& at < new_ops_blocks@.len()
                    &&& stands_after(*old(self), *final(self), new_ops_blocks@, at as int)
                    &&& block_error(
                        final(self).tree_state.block_number,
                        final(self).tree_state.current_unprocessed_priority_op,
                        final(self).last_priority_op_serial_id,
                        new_ops_blocks@[at as int],
                        chunk_sizes@,
                    ) == Some(error)
                },
            },
    {
        let mut applied: Vec<AppliedBlock> = Vec::new();
        let mut i: usize = 0;
        while i < new_ops_blocks.len()
            invariant
                i <= new_ops_blocks.len(),
                applied@.len() == i,
                applied_in_order(*old(self), new_ops_blocks@, applied@),
                stands_after(*old(self), *self, new_ops_blocks@, i as int),
                self.tree_state.accounts == old(self).tree_state.accounts,
                self.events_state == old(self).events_state,
                self.contract_upgrade_eth_blocks == old(self).contract_upgrade_eth_blocks,
                self.init_contract_version == old(self).init_contract_version,
                self.eth_blocks_step == old(self).eth_blocks_step,
                self.end_eth_blocks_offset == old(self).end_eth_blocks_offset,
                self.finite_mode == old(self).finite_mode,
                self.final_hash == old(self).final_hash,
            decreases new_ops_blocks.len() - i,
        {
            let block: &RollupOpsBlock = &new_ops_blocks[i];
            let version: u32 = match block.contract_version {
                Some(v) => v,
                None => {
                    return Err((i, UpdateError::MissingContractVersion));
                },
            };
            let sizes: &Vec<u64> = match chunk_sizes_for(chunk_sizes, version) {
                Some(s) => s,
                None => {
                    return Err((i, UpdateError::UnknownContractVersion { version }));
                },
            };
            let mut serial_id: u64 = self.last_priority_op_serial_id;
            match self.tree_state.update_tree_states_from_ops_block(
                block,
                sizes.as_slice(),
                &mut serial_id,
            ) {
                Ok(done) => {
                    self.last_priority_op_serial_id = serial_id;
                    applied.push(done);
                },
                Err(error) => {
                    return Err((i, UpdateError::Tree { error }));
                },
            }
            i += 1;
        }
        Ok(applied)
    }

    /// Ends a tree update. Of the priority operations that wait for their
    /// block, those that storage could not match to a stored block are kept
    /// for the next iteration, and the rest are dropped. The events of the
    /// blocks that the tree now holds are dropped too.
    pub fn finish_tree_update(&mut self, unmatched_serial_ids: &[u64])
        ensures
            final(self).events_state.priority_op_data@ == sifted(
                old(self).events_state.priority_op_data@,
                unmatched_serial_ids@,
            ),
            final(self).events_state.committed_events@ == kept_after(
                old(self).events_state.committed_events@,
                old(self).tree_state.block_number.0,
            ),
            final(self).events_state.verified_events@ == kept_after(
                old(self).events_state.verified_events@,
                old(self).tree_state.block_number.0,
            ),
            forall|j: int|
                0 <= j < final(self).events_state.committed_events@.len() ==> (
                #[trigger] final(self).events_state.committed_events@[j]).block_num.0 > old(
                    self,
                ).tree_state.block_number.0,
            forall|j: int|
                0 <= j < final(self).events_state.verified_events@.len() ==> (
                #[trigger] final(self).events_state.verified_events@[j]).block_num.0 > old(
                    self,
                ).tree_state.block_number.0,
            final(self).events_state.last_watched_eth_block_number == old(
                self,
            ).events_state.last_watched_eth_block_number,
            final(self).tree_state == old(self).tree_state,
            final(self).last_priority_op_serial_id == old(self).last_priority_op_serial_id,
            final(self).contract_upgrade_eth_blocks == old(self).contract_upgrade_eth_blocks,
            final(self).init_contract_version == old(self).init_contract_version,
            final(self).eth_blocks_step == old(self).eth_blocks_step,
            final(self).end_eth_blocks_offset == old(self).end_eth_blocks_offset,
            final(self).finite_mode == old(self).finite_mode,
            final(self).final_hash == old(self).final_hash,
    {
        self.events_state.sift_priority_ops(unmatched_serial_ids);
        self.events_state.remove_applied_events(self.tree_state.block_number);
    }
}

/// Whether `applied` records the first blocks of `blocks` as applied in
/// order on top of `before`: each block one above the last, its priority
/// operations numbered from where the block before it stopped.
pub open spec fn applied_in_order(
    before: DataRestoreDriver,
    blocks: Seq<RollupOpsBlock>,
    applied: Seq<AppliedBlock>,
) -> bool {
    forall|i: int|
        0 <= i < applied.len() ==> {
            &&& (#[trigger] applied[i]).block_number == blocks[i].block_num
            &&& applied[i].block_number.0 == before.tree_state.block_number.0 + i + 1
            &&& applied[i].fee_account == blocks[i].fee_account
            &&& applied[i].block_chunks_size == total_chunks(blocks[i].ops@)
            &&& applied[i].priority_ops == priority_count(blocks[i].ops@)
            &&& applied[i].first_priority_serial_id == before.last_priority_op_serial_id
                + priority_total(blocks, i)
        }
}

/// Whether `after` is `before` with the first `count` of `blocks` applied.
pub open spec fn stands_after(
    before: DataRestoreDriver,
    after: DataRestoreDriver,
    blocks: Seq<RollupOpsBlock>,
    count: int,
) -> bool {
    &&& after.tree_state.block_number.0 == before.tree_state.block_number.0 + count
    &&& after.last_priority_op_serial_id == before.last_priority_op_serial_id + priority_total(
        blocks,
        count,
    )
    &&& after.tree_state.current_unprocessed_priority_op
        == before.tree_state.current_unprocessed_priority_op + priority_total(blocks, count)
    &&& count > 0 ==> after.tree_state.last_fee_account == blocks[count - 1].fee_account
    &&& count == 0 ==> after.tree_state.last_fee_account == before.tree_state.last_fee_account
}

/// The count of priority operations never falls as more blocks are counted.
pub proof fn lemma_priority_total_rises(blocks: Seq<RollupOpsBlock>, i: int, j: int)
    requires
        i <= j,
    ensures
        priority_total(blocks, i) <= priority_total(blocks, j),
    decreases j - i,
{
    if i < j {
        lemma_priority_total_rises(blocks, i, j - 1);
    }
}

/// Across applied blocks the serial numbers of priority operations rise
/// strictly: a later block starts where the block before it stopped, so no
/// serial number is given twice, and a block with a priority operation
/// starts below every later block. The block numbers rise by one each.
pub proof fn lemma_serial_ids_rise(
    before: DataRestoreDriver,
    blocks: Seq<RollupOpsBlock>,
    applied: Seq<AppliedBlock>,
    i: int,
    j: int,
)
    requires
        applied_in_order(before, blocks, applied),
        0 <= i < j < applied.len(),
    ensures
        applied[i].first_priority_serial_id + applied[i].priority_ops
            <= applied[j].first_priority_serial_id,
        j == i + 1 ==> applied[i].first_priority_serial_id + applied[i].priority_ops
            == applied[j].first_priority_serial_id,
        applied[i].priority_ops > 0 ==> applied[i].first_priority_serial_id
            < applied[j].first_priority_serial_id,
        applied[j].block_number.0 == applied[i].block_number.0 + (j - i),
{
    lemma_priority_total_rises(blocks, i + 1, j);
}

} // verus!

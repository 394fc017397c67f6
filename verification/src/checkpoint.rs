//! The checkpoint that the restore driver keeps in storage, and what each
//! write does to it.

use vstd::prelude::*;
use crate::primitives::BlockNumber;

verus! {

/// How far the last iteration of the restore driver got.
#[derive(Debug, Clone, Copy, PartialEq, Eq, Structural)]
pub enum StorageUpdateState {
    /// The state was updated completely: start by fetching new events.
    Complete,
    /// The events were fetched and saved: get the operations from them, then
    /// update the tree.
    Events,
    /// There are saved operations that the tree does not hold yet: update the tree.
    Operations,
}

/// A write of the restore driver to storage.
#[derive(Debug, Clone, Copy, PartialEq, Eq, Structural)]
pub enum StorageWrite {
    /// Save the block events, token events and priority operations of a
    /// scanned window, and the last watched L1 block.
    SaveEventsState,
    /// Save decoded rollup operation blocks.
    SaveRollupOps,
    /// Save the journal of the genesis accounts.
    SaveGenesisTreeState,
    /// Save the token that stands for the NFTs.
    SaveSpecialToken,
    /// Save an applied block and its journal.
    UpdateTreeState { block: BlockNumber },
    /// Save where L1 recorded the priority operations of stored blocks.
    ApplyPriorityOpData,
    /// Bring the stored L1 counters in line with the stored blocks.
    UpdateEthState,
    /// Save the tree cache of a block.
    UpdateTreeCache { block: BlockNumber },
}

/// The checkpoint after `write`, where it was `before`.
pub open spec fn checkpoint_after(before: StorageUpdateState, write: StorageWrite) -> StorageUpdateState {
    match write {
        StorageWrite::SaveEventsState => StorageUpdateState::Events,
        StorageWrite::UpdateTreeState { .. } => StorageUpdateState::Operations,
        StorageWrite::UpdateTreeCache { .. } => StorageUpdateState::Complete,
        _ => before,
    }
}

/// The checkpoint after `writes`, in order, where it was `before`.
pub open spec fn checkpoint_after_all(before: StorageUpdateState, writes: Seq<StorageWrite>) -> StorageUpdateState
    decreases writes.len(),
{
    if writes.len() == 0 {
        before
    } else {
        checkpoint_after(checkpoint_after_all(before, writes.drop_last()), writes.last())
    }
}

impl StorageUpdateState {
    /// The checkpoint after `write`.
    pub fn after(self, write: StorageWrite) -> (next: StorageUpdateState)
        ensures
            next == checkpoint_after(self, write),
    {
        match write {
            StorageWrite::SaveEventsState => StorageUpdateState::Events,
            StorageWrite::UpdateTreeState { .. } => StorageUpdateState::Operations,
            StorageWrite::UpdateTreeCache { .. } => StorageUpdateState::Complete,
            _ => self,
        }
    }
}

/// The writes of an iteration that found `blocks` new blocks after block
/// `tree_block`: the events, the operations, each block in turn, the priority
/// operations, the L1 counters, and last the tree cache of the newest block.
/// An iteration that found no block stops after the operations.
pub open spec fn iteration_writes(tree_block: BlockNumber, blocks: nat) -> Seq<StorageWrite> {
    let head = seq![StorageWrite::SaveEventsState, StorageWrite::SaveRollupOps];
    if blocks == 0 {
        head
    } else {
        head + Seq::new(
            blocks,
            |i: int| StorageWrite::UpdateTreeState { block: BlockNumber((tree_block.0 + 1 + i) as u32) },
        ) + seq![
            StorageWrite::ApplyPriorityOpData,
            StorageWrite::UpdateEthState,
            StorageWrite::UpdateTreeCache { block: BlockNumber((tree_block.0 + blocks) as u32) },
        ]
    }
}

/// The writes of one iteration of the restore driver, in order.
pub fn iteration_plan(tree_block: BlockNumber, blocks: u32) -> (writes: Vec<StorageWrite>)
    requires
        tree_block.0 + blocks <= u32::MAX,
    ensures
        writes@ == iteration_writes(tree_block, blocks as nat),
{
    let mut writes: Vec<StorageWrite> = Vec::new();
    writes.push(StorageWrite::SaveEventsState);
    writes.push(StorageWrite::SaveRollupOps);
    if blocks == 0 {
        assert(writes@ =~= iteration_writes(tree_block, 0));
        return writes;
    }
    let ghost head = writes@;
    let mut i: u32 = 0;
    while i < blocks
        invariant
            i <= blocks,
            tree_block.0 + blocks <= u32::MAX,
            writes@ == head + Seq::new(
                i as nat,
                |k: int| StorageWrite::UpdateTreeState { block: BlockNumber((tree_block.0 + 1 + k) as u32) },
            ),
        decreases blocks - i,
    {
        writes.push(StorageWrite::UpdateTreeState { block: BlockNumber(tree_block.0 + 1 + i) });
        i += 1;
        assert(writes@ =~= head + Seq::new(
            i as nat,
            |k: int| StorageWrite::UpdateTreeState { block: BlockNumber((tree_block.0 + 1 + k) as u32) },
        ));
    }
    writes.push(StorageWrite::ApplyPriorityOpData);
    writes.push(StorageWrite::UpdateEthState);
    writes.push(StorageWrite::UpdateTreeCache { block: BlockNumber(tree_block.0 + blocks) });
    assert(writes@ =~= iteration_writes(tree_block, blocks as nat));
    writes
}

/// Writes that end with a tree cache leave the checkpoint complete, whatever
/// it was before.
pub proof fn lemma_cache_completes(before: StorageUpdateState, writes: Seq<StorageWrite>)
    requires
        writes.len() > 0,
        writes.last() is UpdateTreeCache,
    ensures
        checkpoint_after_all(before, writes) == StorageUpdateState::Complete,
{
}

/// After an iteration that applied at least one block, the checkpoint is
/// complete and the last write is the tree cache of the block that the tree
/// stands at.
pub proof fn lemma_iteration_ends_complete(
    before: StorageUpdateState,
    tree_block: BlockNumber,
    blocks: nat,
)
    requires
        blocks > 0,
        tree_block.0 + blocks <= u32::MAX,
    ensures
        checkpoint_after_all(before, iteration_writes(tree_block, blocks))
            == StorageUpdateState::Complete,
        iteration_writes(tree_block, blocks).last() == (StorageWrite::UpdateTreeCache {
            block: BlockNumber((tree_block.0 + blocks) as u32),
        }),
{
    lemma_cache_completes(before, iteration_writes(tree_block, blocks));
}

/// An iteration that applied no block leaves the checkpoint at `Events`: the
/// saved events are decoded again after a restart.
pub proof fn lemma_idle_iteration_leaves_events(before: StorageUpdateState, tree_block: BlockNumber)
    ensures
        checkpoint_after_all(before, iteration_writes(tree_block, 0)) == StorageUpdateState::Events,
{
    let writes = iteration_writes(tree_block, 0);
    assert(writes.drop_last() =~= seq![StorageWrite::SaveEventsState]);
    assert(writes.drop_last().drop_last() =~= Seq::<StorageWrite>::empty());
    assert(checkpoint_after_all(before, writes.drop_last().drop_last()) == before);
    assert(checkpoint_after_all(before, writes.drop_last()) == StorageUpdateState::Events);
}

} // verus!

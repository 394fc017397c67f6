//! Collecting the rollup operation blocks that events point at. One L1
//! transaction may commit several rollup blocks, and its events then follow
//! each other: the blocks of the last fetched transaction are kept, so that
//! each transaction is fetched once.

use vstd::prelude::*;
use crate::events_state::BlockEvent;
use crate::primitives::{BlockNumber, H256};
use crate::tree_state::RollupOpsBlock;

verus! {

/// What to do with an event.
#[derive(Clone, Copy, Debug, PartialEq, Eq, Structural)]
pub enum EventVerdict {
    /// The block of the event was processed already: pass over the event.
    Skip,
    /// The event belongs to another transaction than the kept blocks: fetch
    /// the transaction and decode its blocks.
    Fetch,
    /// The block of the event is among the kept blocks.
    UseCache,
}

/// Why the block of an event could not be collected.
#[derive(Clone, Copy, Debug, PartialEq, Eq, Structural)]
pub enum CollectError {
    /// The kept blocks are those of another transaction.
    NotFetched,
    /// The transaction of the event holds no block with the event's number.
    BlockNotFound { block: BlockNumber },
}

/// The blocks collected so far, and the blocks of the last fetched transaction.
#[derive(Debug, Clone, PartialEq, Eq)]
pub struct OpsCollector {
    /// The block that the tree stood at when the collection began.
    pub tree_block: BlockNumber,
    /// The newest block that was collected, or the tree's block if none was.
    pub last_processed_block: BlockNumber,
    /// The transaction whose blocks are kept.
    pub last_event_tx_hash: Option<H256>,
    /// The blocks of that transaction that were not collected yet.
    pub last_tx_blocks: Vec<RollupOpsBlock>,
    /// The collected blocks, in the order of their events.
    pub blocks: Vec<RollupOpsBlock>,
}

/// The place of the last block with number `num` in `blocks`.
pub open spec fn last_with_block(blocks: Seq<RollupOpsBlock>, num: u32) -> Option<int>
    decreases blocks.len(),
{
    if blocks.len() == 0 {
        None
    } else if blocks.last().block_num.0 == num {
        Some(blocks.len() - 1)
    } else {
        last_with_block(blocks.drop_last(), num)
    }
}

/// Whether the kept blocks are those of the transaction `hash`.
pub open spec fn keeps_transaction(kept: Option<H256>, hash: H256) -> bool {
    kept matches Some(h) && h@ == hash@
}

impl OpsCollector {
    /// What the collector does with `event`.
    pub open spec fn verdict_of(self, event: BlockEvent) -> EventVerdict {
        if event.block_num.0 <= self.last_processed_block.0 {
            EventVerdict::Skip
        } else if !keeps_transaction(self.last_event_tx_hash, event.transaction_hash) {
            EventVerdict::Fetch
        } else {
            EventVerdict::UseCache
        }
    }

    /// What holds of a collector at every step: the collected blocks rise
    /// strictly, all lie above the tree's block, and the newest of them is
    /// the last processed block.
    pub open spec fn well_formed(self) -> bool {
        &&& self.tree_block.0 <= self.last_processed_block.0
        &&& forall|j: int|
            0 <= j < self.blocks@.len() ==> self.tree_block.0 < (
            #[trigger] self.blocks@[j]).block_num.0 <= self.last_processed_block.0
        &&& forall|j: int, k: int|
            0 <= j < k < self.blocks@.len() ==> (#[trigger] self.blocks@[j]).block_num.0 < (
            #[trigger] self.blocks@[k]).block_num.0
    }

    /// A collector for a tree that stands at `tree_block`.
    pub fn new(tree_block: BlockNumber) -> (collector: OpsCollector)
        ensures
            collector.tree_block == tree_block,
            collector.last_processed_block == tree_block,
            collector.last_event_tx_hash is None,
            collector.last_tx_blocks@.len() == 0,
            collector.blocks@.len() == 0,
            collector.well_formed(),
    {
        OpsCollector {
            tree_block,
            last_processed_block: tree_block,
            last_event_tx_hash: None,
            last_tx_blocks: Vec::new(),
            blocks: Vec::new(),
        }
    }

    /// Says what to do with `event`: pass over it where its block is not
    /// above the last processed one, fetch its transaction where the kept
    /// blocks are another's, and otherwise collect from the kept blocks.
    pub fn verdict(&self, event: &BlockEvent) -> (verdict: EventVerdict)
        ensures
            verdict == self.verdict_of(*event),
    {
        if event.block_num.0 <= self.last_processed_block.0 {
            return EventVerdict::Skip;
        }
        let kept: bool = match &self.last_event_tx_hash {
            Some(h) => h.same_as(&event.transaction_hash),
            None => false,
        };
        if kept {
            EventVerdict::UseCache
        } else {
            EventVerdict::Fetch
        }
    }

    /// Keeps the decoded blocks of the transaction `tx_hash` in place of the
    /// blocks kept before.
    pub fn store_fetched(&mut self, tx_hash: H256, blocks: Vec<RollupOpsBlock>)
        ensures
            final(self).last_event_tx_hash == Some(tx_hash),
            final(self).last_tx_blocks == blocks,
            final(self).tree_block == old(self).tree_block,
            final(self).last_processed_block == old(self).last_processed_block,
            final(self).blocks == old(self).blocks,
            old(self).well_formed() ==> final(self).well_formed(),
    {
        self.last_event_tx_hash = Some(tx_hash);
        self.last_tx_blocks = blocks;
    }

    /// Collects the block of `event` from the kept blocks. An event whose
    /// block is not above the last processed one changes nothing and gives
    /// `Ok(false)`. Otherwise the last kept block with the event's number
    /// leaves the kept blocks and joins the collected ones. Where the kept
    /// blocks are another transaction's, or hold no such block, nothing
    /// changes.
    pub fn collect(&mut self, event: &BlockEvent) -> (collected: Result<bool, CollectError>)
        ensures
            match collected {
                Ok(false) => {
                    &&& old(self).verdict_of(*event) == EventVerdict::Skip
                    &&& *final(self) == *old(self)
                },
                Ok(true) => {
                    &&& old(self).verdict_of(*event) == EventVerdict::UseCache
                    &&& last_with_block(old(self).last_tx_blocks@, event.block_num.0) matches Some(
                        at,
                    )
                    &&& 0 <= at < old(self).last_tx_blocks@.len()
                    &&& final(self).blocks@ == old(self).blocks@.push(old(self).last_tx_blocks@[at])
                    &&& final(self).last_tx_blocks@ == old(self).last_tx_blocks@.remove(at)
                    &&& final(self).last_processed_block == event.block_num
                    &&& final(self).last_event_tx_hash == old(self).last_event_tx_hash
                    &&& final(self).tree_block == old(self).tree_block
                },
                Err(CollectError::NotFetched) => {
                    &&& old(self).verdict_of(*event) == EventVerdict::Fetch
                    &&& *final(self) == *old(self)
                },
                Err(CollectError::BlockNotFound { block }) => {
                    &&& old(self).verdict_of(*event) == EventVerdict::UseCache
                    &&& last_with_block(old(self).last_tx_blocks@, event.block_num.0) is None
                    &&& block == event.block_num
                    &&& *final(self) == *old(self)
                },
            },
            old(self).well_formed() ==> final(self).well_formed(),
    {
        match self.verdict(event) {
            EventVerdict::Skip => {
                return Ok(false);
            },
            EventVerdict::Fetch => {
                return Err(CollectError::NotFetched);
            },
            EventVerdict::UseCache => {},
        }
        let num: u32 = event.block_num.0;
        let mut at: usize = self.last_tx_blocks.len();
        assert(self.last_tx_blocks@.subrange(0, at as int) =~= self.last_tx_blocks@);
        while at > 0 && self.last_tx_blocks[at - 1].block_num.0 != num
            invariant
                at <= self.last_tx_blocks.len(),
                *self == *old(self),
                last_with_block(self.last_tx_blocks@, num) == last_with_block(
                    self.last_tx_blocks@.subrange(0, at as int),
                    num,
                ),
            decreases at,
        {
            proof {
                let head = self.last_tx_blocks@.subrange(0, at as int);
                assert(head.drop_last() =~= self.last_tx_blocks@.subrange(0, at - 1));
                assert(head.last() == self.last_tx_blocks@[at - 1]);
            }
            at -= 1;
        }
        if at == 0 {
            return Err(CollectError::BlockNotFound { block: event.block_num });
        }
        proof {
            let head = self.last_tx_blocks@.subrange(0, at as int);
            assert(head.last() == self.last_tx_blocks@[at - 1]);
        }
        let block: RollupOpsBlock = self.last_tx_blocks.remove(at - 1);
        self.blocks.push(block);
        self.last_processed_block = event.block_num;
        Ok(true)
    }

    /// The collected blocks, in the order of their events.
    pub fn into_blocks(self) -> (blocks: Vec<RollupOpsBlock>)
        ensures
            blocks == self.blocks,
    {
        self.blocks
    }
}

/// An event of a block that the tree holds already is passed over, whatever
/// was collected before, and collecting it changes nothing: a block is never
/// applied twice.
pub proof fn lemma_processed_blocks_are_skipped(collector: OpsCollector, event: BlockEvent)
    requires
        collector.well_formed(),
        event.block_num.0 <= collector.tree_block.0,
    ensures
        collector.verdict_of(event) == EventVerdict::Skip,
{
}

/// An event of a block that was collected is passed over from then on.
pub proof fn lemma_collected_blocks_are_skipped(collector: OpsCollector, event: BlockEvent, j: int)
    requires
        collector.well_formed(),
        0 <= j < collector.blocks@.len(),
        event.block_num == collector.blocks@[j].block_num,
    ensures
        collector.verdict_of(event) == EventVerdict::Skip,
{
}

} // verus!

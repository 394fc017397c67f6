//! What the restore driver knows of the rollup contract's events: the L1
//! window it has watched, the block events it has seen, and the priority
//! operations that wait for their block.

use vstd::prelude::*;
use crate::primitives::{BlockNumber, H256, SerialId};

verus! {

/// What an L1 event says of a rollup block.
#[derive(Clone, Copy, Debug, PartialEq, Eq, Structural)]
pub enum EventType {
    /// The block was committed.
    Committed,
    /// The block was verified.
    Verified,
    /// Every block after this one was reverted.
    Reverted,
}

/// An event of the rollup contract about a rollup block.
#[derive(Clone, Copy, Debug, PartialEq, Eq)]
pub struct BlockEvent {
    /// The rollup block that the event speaks of.
    pub block_num: BlockNumber,
    /// The L1 transaction that emitted the event.
    pub transaction_hash: H256,
    /// What the event says.
    pub block_type: EventType,
    /// The version of the contract at the L1 block of the event.
    pub contract_version: u32,
}

/// Where L1 recorded a priority operation.
#[derive(Clone, Copy, Debug, PartialEq, Eq)]
pub struct PriorityOpData {
    /// The serial number that the contract gave the operation.
    pub serial_id: SerialId,
    /// The L1 block of the log.
    pub eth_block: u64,
    /// The L1 transaction of the log.
    pub eth_hash: H256,
    /// The place of the log in its block.
    pub log_index: u64,
}

/// The place of a log on L1.
#[derive(Clone, Copy, Debug, PartialEq, Eq, Structural)]
pub struct LogPosition {
    /// The L1 block of the log.
    pub block_number: u64,
    /// The place of the log's transaction in the block.
    pub transaction_index: u64,
    /// The place of the log in the block.
    pub log_index: u64,
}

impl LogPosition {
    /// Whether the log at `self` comes before the log at `other`, or is the
    /// same log: by L1 block, then by transaction, then by log index.
    pub open spec fn at_or_before(self, other: LogPosition) -> bool {
        self.block_number < other.block_number || (self.block_number == other.block_number && (
        self.transaction_index < other.transaction_index || (self.transaction_index
            == other.transaction_index && self.log_index <= other.log_index)))
    }

    /// Whether the log at `self` comes before the log at `other`, or is the
    /// same log.
    #[verifier::when_used_as_spec(at_or_before)]
    pub fn precedes(self, other: LogPosition) -> (yes: bool)
        ensures
            yes == self.at_or_before(other),
    {
        if self.block_number != other.block_number {
            self.block_number < other.block_number
        } else if self.transaction_index != other.transaction_index {
            self.transaction_index < other.transaction_index
        } else {
            self.log_index <= other.log_index
        }
    }
}

/// Whether `logs` come in the order of L1: by block, then by transaction,
/// then by log index.
pub open spec fn in_log_order(logs: Seq<LogPosition>) -> bool {
    forall|i: int, j: int| 0 <= i <= j < logs.len() ==> logs[i].at_or_before(logs[j])
}

/// Whether `logs` come in the order of L1.
pub fn are_in_log_order(logs: &[LogPosition]) -> (ordered: bool)
    ensures
        ordered == in_log_order(logs@),
{
    if logs.len() < 2 {
        return true;
    }
    let mut i: usize = 1;
    while i < logs.len()
        invariant
            1 <= i <= logs.len(),
            in_log_order(logs@.subrange(0, i as int)),
        decreases logs.len() - i,
    {
        if !logs[i - 1].precedes(logs[i]) {
            return false;
        }
        proof {
            let head = logs@.subrange(0, i as int);
            let next = logs@.subrange(0, i + 1);
            assert forall|a: int, b: int| 0 <= a <= b < next.len() implies next[a].at_or_before(
                next[b],
            ) by {
                if b < i {
                    assert(head[a].at_or_before(head[b]));
                } else if a < i {
                    assert(head[a].at_or_before(head[i - 1]));
                    lemma_log_order_is_total(next[a], logs@[i - 1], next[b]);
                }
            }
        }
        i += 1;
    }
    assert(logs@.subrange(0, logs.len() as int) =~= logs@);
    true
}

/// The order of logs is total: any two logs are ordered, two logs that are
/// ordered both ways are one, and the order carries over a log in between.
pub proof fn lemma_log_order_is_total(a: LogPosition, b: LogPosition, c: LogPosition)
    ensures
        a.at_or_before(b) || b.at_or_before(a),
        a.at_or_before(b) && b.at_or_before(a) ==> a == b,
        a.at_or_before(b) && b.at_or_before(c) ==> a.at_or_before(c),
{
}

/// The window of L1 blocks to scan next: it starts behind the last watched
/// block, holds at most `step` blocks, and stays `tail_offset` blocks behind
/// the head. `None` where no block is left to scan.
pub open spec fn next_window(last_watched: u64, head: u64, tail_offset: u64, step: u64) -> Option<
    (u64, u64),
> {
    let from = last_watched + 1;
    let to = if head - tail_offset <= from + step - 1 {
        head - tail_offset
    } else {
        from + step - 1
    };
    if from <= to {
        Some((from as u64, to as u64))
    } else {
        None
    }
}

/// The window of L1 blocks to scan next, first and last block included, or
/// `None` where no progress can be made. After a successful scan the last
/// watched block is the window's last.
pub fn scan_window(last_watched: u64, head: u64, tail_offset: u64, step: u64) -> (window: Option<
    (u64, u64),
>)
    ensures
        window == next_window(last_watched, head, tail_offset, step),
{
    if head < tail_offset {
        return None;
    }
    let safe_head: u64 = head - tail_offset;
    if safe_head <= last_watched {
        return None;
    }
    let from: u64 = last_watched + 1;
    let to: u64 = match last_watched.checked_add(step) {
        Some(reach) => if reach < safe_head {
            reach
        } else {
            safe_head
        },
        None => safe_head,
    };
    if to < from {
        None
    } else {
        Some((from, to))
    }
}

/// A window starts right behind the last watched block, holds at most `step`
/// blocks, and ends at least `tail_offset` blocks before the head. There is
/// a window exactly when a step is asked for and a block is left to scan.
pub proof fn lemma_window_bounds(last_watched: u64, head: u64, tail_offset: u64, step: u64)
    ensures
        next_window(last_watched, head, tail_offset, step) is Some <==> step > 0 && last_watched
            + tail_offset < head,
        next_window(last_watched, head, tail_offset, step) matches Some(w) ==> {
            &&& w.0 == last_watched + 1
            &&& w.0 <= w.1
            &&& w.1 + tail_offset <= head
            &&& w.1 - w.0 < step
            &&& w.1 == head - tail_offset || w.1 - w.0 + 1 == step
        },
{
}

/// Windows follow each other without gap or overlap: once a window is
/// scanned and its end is the last watched block, the next window starts
/// with the block behind it.
pub proof fn lemma_windows_follow(
    last_watched: u64,
    head: u64,
    later_head: u64,
    tail_offset: u64,
    step: u64,
    first: (u64, u64),
    second: (u64, u64),
)
    requires
        next_window(last_watched, head, tail_offset, step) == Some(first),
        next_window(first.1, later_head, tail_offset, step) == Some(second),
    ensures
        second.0 == first.1 + 1,
        first.0 <= first.1 < second.0 <= second.1,
{
}

/// The number of contract upgrades that took effect at or before `eth_block`.
pub open spec fn upgrades_passed(upgrade_blocks: Seq<u64>, eth_block: u64) -> nat
    decreases upgrade_blocks.len(),
{
    if upgrade_blocks.len() == 0 {
        0
    } else {
        upgrades_passed(upgrade_blocks.drop_last(), eth_block) + if upgrade_blocks.last()
            <= eth_block {
            1nat
        } else {
            0nat
        }
    }
}

/// The version of the contract in force at L1 block `eth_block`: the initial
/// version, raised by one at each upgrade block.
pub open spec fn version_at(upgrade_blocks: Seq<u64>, initial_version: u32, eth_block: u64) -> nat {
    initial_version as nat + upgrades_passed(upgrade_blocks, eth_block)
}

/// The version of the contract by which an event at L1 block `eth_block` is
/// decoded. It depends on the L1 block alone. `None` where the version does
/// not fit 32 bits.
pub fn contract_version_at(upgrade_blocks: &[u64], initial_version: u32, eth_block: u64) -> (version:
    Option<u32>)
    ensures
        match version {
            Some(v) => v as nat == version_at(upgrade_blocks@, initial_version, eth_block),
            None => version_at(upgrade_blocks@, initial_version, eth_block) > u32::MAX,
        },
{
    let mut passed: usize = 0;
    let mut i: usize = 0;
    while i < upgrade_blocks.len()
        invariant
            i <= upgrade_blocks.len(),
            passed <= i,
            passed as nat == upgrades_passed(upgrade_blocks@.subrange(0, i as int), eth_block),
        decreases upgrade_blocks.len() - i,
    {
        proof {
            let next = upgrade_blocks@.subrange(0, i + 1);
            assert(next.drop_last() =~= upgrade_blocks@.subrange(0, i as int));
            assert(next.last() == upgrade_blocks@[i as int]);
        }
        if upgrade_blocks[i] <= eth_block {
            passed += 1;
        }
        i += 1;
    }
    assert(upgrade_blocks@.subrange(0, upgrade_blocks.len() as int) =~= upgrade_blocks@);
    if passed > u32::MAX as usize {
        return None;
    }
    initial_version.checked_add(passed as u32)
}

/// Whether the upgrade blocks are listed in rising order.
pub open spec fn upgrades_ascend(upgrade_blocks: Seq<u64>) -> bool {
    forall|j: int, k: int| 0 <= j <= k < upgrade_blocks.len() ==> upgrade_blocks[j] <= upgrade_blocks[k]
}

/// With the upgrade blocks in rising order, an event before the first of them
/// is decoded by the initial version, and an event from the `i`-th of them up
/// to the next by the initial version plus `i`.
pub proof fn lemma_version_by_window(
    upgrade_blocks: Seq<u64>,
    initial_version: u32,
    eth_block: u64,
    i: int,
)
    requires
        upgrades_ascend(upgrade_blocks),
        0 <= i <= upgrade_blocks.len(),
        i > 0 ==> upgrade_blocks[i - 1] <= eth_block,
        i < upgrade_blocks.len() ==> eth_block < upgrade_blocks[i],
    ensures
        version_at(upgrade_blocks, initial_version, eth_block) == initial_version + i,
    decreases upgrade_blocks.len(),
{
    if upgrade_blocks.len() > 0 {
        let front = upgrade_blocks.drop_last();
        assert(upgrades_ascend(front)) by {
            assert forall|j: int, k: int| 0 <= j <= k < front.len() implies front[j] <= front[k] by {
                assert(front[j] == upgrade_blocks[j]);
                assert(front[k] == upgrade_blocks[k]);
            }
        }
        if i == upgrade_blocks.len() {
            assert(upgrade_blocks.last() <= eth_block);
            assert(i - 1 > 0 ==> front[i - 2] == upgrade_blocks[i - 2]);
            assert(i - 1 > 0 ==> upgrade_blocks[i - 2] <= upgrade_blocks[i - 1]);
            lemma_version_by_window(front, initial_version, eth_block, i - 1);
        } else {
            assert(upgrade_blocks[i] <= upgrade_blocks.last());
            assert(i > 0 ==> front[i - 1] == upgrade_blocks[i - 1]);
            assert(i < front.len() ==> front[i] == upgrade_blocks[i]);
            lemma_version_by_window(front, initial_version, eth_block, i);
        }
    }
}

/// Whether one of `events` speaks of block `num`.
pub open spec fn has_block(events: Seq<BlockEvent>, num: u32) -> bool {
    exists|i: int| 0 <= i < events.len() && (#[trigger] events[i]).block_num.0 == num
}

/// The events of `events` that speak of a block up to `limit`, in order.
pub open spec fn kept_up_to(events: Seq<BlockEvent>, limit: u32) -> Seq<BlockEvent> {
    events.filter(|e: BlockEvent| e.block_num.0 <= limit)
}

/// The events of `events` that speak of a block after `limit`, in order.
pub open spec fn kept_after(events: Seq<BlockEvent>, limit: u32) -> Seq<BlockEvent> {
    events.filter(|e: BlockEvent| e.block_num.0 > limit)
}

/// The events of `committed` whose block `verified` speaks of too, in order.
pub open spec fn also_verified(committed: Seq<BlockEvent>, verified: Seq<BlockEvent>) -> Seq<
    BlockEvent,
> {
    committed.filter(|e: BlockEvent| has_block(verified, e.block_num.0))
}

/// `sorted` with `e` put behind the last event whose block is not after `e`'s.
pub open spec fn insert_by_block(sorted: Seq<BlockEvent>, e: BlockEvent) -> Seq<BlockEvent>
    decreases sorted.len(),
{
    if sorted.len() == 0 {
        seq![e]
    } else if sorted.last().block_num.0 <= e.block_num.0 {
        sorted.push(e)
    } else {
        insert_by_block(sorted.drop_last(), e).push(sorted.last())
    }
}

/// `events` in rising order of their blocks; events of one block keep their order.
pub open spec fn sorted_by_block(events: Seq<BlockEvent>) -> Seq<BlockEvent>
    decreases events.len(),
{
    if events.len() == 0 {
        events
    } else {
        insert_by_block(sorted_by_block(events.drop_last()), events.last())
    }
}

/// Whether the blocks of `events` never fall.
pub open spec fn ascends_by_block(events: Seq<BlockEvent>) -> bool {
    forall|j: int, k: int|
        0 <= j <= k < events.len() ==> (#[trigger] events[j]).block_num.0 <= (
        #[trigger] events[k]).block_num.0
}

/// The committed and verified events after `event` is taken in: a commit or
/// a verification joins its list; a revert drops, from both lists, the events
/// of every block after the one it names.
pub open spec fn absorbed_one(
    lists: (Seq<BlockEvent>, Seq<BlockEvent>),
    event: BlockEvent,
) -> (Seq<BlockEvent>, Seq<BlockEvent>) {
    match event.block_type {
        EventType::Committed => (lists.0.push(event), lists.1),
        EventType::Verified => (lists.0, lists.1.push(event)),
        EventType::Reverted => (
            kept_up_to(lists.0, event.block_num.0),
            kept_up_to(lists.1, event.block_num.0),
        ),
    }
}

/// The committed and verified events after `events` are taken in, in order.
pub open spec fn absorbed(lists: (Seq<BlockEvent>, Seq<BlockEvent>), events: Seq<BlockEvent>) -> (
    Seq<BlockEvent>,
    Seq<BlockEvent>,
)
    decreases events.len(),
{
    if events.len() == 0 {
        lists
    } else {
        absorbed_one(absorbed(lists, events.drop_last()), events.last())
    }
}

/// The serial numbers of `ops`, in order.
pub open spec fn serial_ids(ops: Seq<PriorityOpData>) -> Seq<u64> {
    ops.map_values(|op: PriorityOpData| op.serial_id)
}

/// The operations of `ops` whose serial number is among `kept`, in order.
pub open spec fn sifted(ops: Seq<PriorityOpData>, kept: Seq<u64>) -> Seq<PriorityOpData> {
    ops.filter(|op: PriorityOpData| kept.contains(op.serial_id))
}

/// The events of `events` that speak of a block up to `limit`, in order.
pub fn keep_up_to(events: &Vec<BlockEvent>, limit: u32) -> (kept: Vec<BlockEvent>)
    ensures
        kept@ == kept_up_to(events@, limit),
{
    let mut kept: Vec<BlockEvent> = Vec::new();
    let mut i: usize = 0;
    proof {
        reveal(Seq::filter);
    }
    while i < events.len()
        invariant
            i <= events.len(),
            kept@ == kept_up_to(events@.subrange(0, i as int), limit),
        decreases events.len() - i,
    {
        proof {
            reveal(Seq::filter);
            let next = events@.subrange(0, i + 1);
            assert(next.drop_last() =~= events@.subrange(0, i as int));
            assert(next.last() == events@[i as int]);
        }
        if events[i].block_num.0 <= limit {
            kept.push(events[i]);
        }
        i += 1;
    }
    assert(events@.subrange(0, events.len() as int) =~= events@);
    kept
}

/// The events of `events` that speak of a block after `limit`, in order.
pub fn keep_after(events: &Vec<BlockEvent>, limit: u32) -> (kept: Vec<BlockEvent>)
    ensures
        kept@ == kept_after(events@, limit),
        forall|j: int| 0 <= j < kept@.len() ==> (#[trigger] kept@[j]).block_num.0 > limit,
{
    let mut kept: Vec<BlockEvent> = Vec::new();
    let mut i: usize = 0;
    proof {
        reveal(Seq::filter);
    }
    while i < events.len()
        invariant
            i <= events.len(),
            kept@ == kept_after(events@.subrange(0, i as int), limit),
            forall|j: int| 0 <= j < kept@.len() ==> (#[trigger] kept@[j]).block_num.0 > limit,
        decreases events.len() - i,
    {
        proof {
            reveal(Seq::filter);
            let next = events@.subrange(0, i + 1);
            assert(next.drop_last() =~= events@.subrange(0, i as int));
            assert(next.last() == events@[i as int]);
        }
        if events[i].block_num.0 > limit {
            kept.push(events[i]);
        }
        i += 1;
    }
    assert(events@.subrange(0, events.len() as int) =~= events@);
    kept
}

/// Whether one of `events` speaks of block `num`.
pub fn speaks_of(events: &Vec<BlockEvent>, num: u32) -> (found: bool)
    ensures
        found == has_block(events@, num),
{
    let mut i: usize = 0;
    while i < events.len()
        invariant
            i <= events.len(),
            forall|j: int| 0 <= j < i ==> (#[trigger] events@[j]).block_num.0 != num,
        decreases events.len() - i,
    {
        if events[i].block_num.0 == num {
            return true;
        }
        i += 1;
    }
    false
}

/// Where `e` goes in `sorted`: behind the last event whose block is not after `e`'s.
proof fn lemma_insert_position(sorted: Seq<BlockEvent>, e: BlockEvent, pos: int)
    requires
        0 <= pos <= sorted.len(),
        pos > 0 ==> sorted[pos - 1].block_num.0 <= e.block_num.0,
        forall|j: int| pos <= j < sorted.len() ==> (#[trigger] sorted[j]).block_num.0 > e.block_num.0,
    ensures
        insert_by_block(sorted, e) == sorted.insert(pos, e),
    decreases sorted.len(),
{
    if sorted.len() == 0 {
        assert(sorted.insert(pos, e) =~= seq![e]);
    } else if pos == sorted.len() {
        assert(sorted.insert(pos, e) =~= sorted.push(e));
    } else {
        assert(sorted[sorted.len() - 1].block_num.0 > e.block_num.0);
        let front = sorted.drop_last();
        assert(pos > 0 ==> front[pos - 1] == sorted[pos - 1]);
        assert forall|j: int| pos <= j < front.len() implies (#[trigger] front[j]).block_num.0
            > e.block_num.0 by {
            assert(front[j] == sorted[j]);
        }
        lemma_insert_position(front, e, pos);
        assert(front.insert(pos, e).push(sorted.last()) =~= sorted.insert(pos, e));
    }
}

/// `events` in rising order of their blocks; events of one block keep their order.
pub fn sort_by_block(events: &Vec<BlockEvent>) -> (sorted: Vec<BlockEvent>)
    ensures
        sorted@ == sorted_by_block(events@),
{
    let mut sorted: Vec<BlockEvent> = Vec::new();
    let mut i: usize = 0;
    while i < events.len()
        invariant
            i <= events.len(),
            sorted@ == sorted_by_block(events@.subrange(0, i as int)),
        decreases events.len() - i,
    {
        let e: BlockEvent = events[i];
        let mut pos: usize = sorted.len();
        while pos > 0 && sorted[pos - 1].block_num.0 > e.block_num.0
            invariant
                pos <= sorted.len(),
                forall|j: int|
                    pos <= j < sorted.len() ==> (#[trigger] sorted@[j]).block_num.0 > e.block_num.0,
            decreases pos,
        {
            pos -= 1;
        }
        proof {
            lemma_insert_position(sorted@, e, pos as int);
            let next = events@.subrange(0, i + 1);
            assert(next.drop_last() =~= events@.subrange(0, i as int));
            assert(next.last() == e);
        }
        sorted.insert(pos, e);
        i += 1;
    }
    assert(events@.subrange(0, events.len() as int) =~= events@);
    sorted
}

/// Putting an event in keeps the order, and adds that event and no other.
pub proof fn lemma_insert_by_block(sorted: Seq<BlockEvent>, e: BlockEvent)
    requires
        ascends_by_block(sorted),
    ensures
        ascends_by_block(insert_by_block(sorted, e)),
        insert_by_block(sorted, e).to_multiset() == sorted.to_multiset().insert(e),
        insert_by_block(sorted, e).len() == sorted.len() + 1,
    decreases sorted.len(),
{
    broadcast use vstd::seq_lib::to_multiset_build;

    let out = insert_by_block(sorted, e);
    if sorted.len() == 0 {
        assert(out =~= sorted.push(e));
    } else if sorted.last().block_num.0 <= e.block_num.0 {
        assert forall|j: int, k: int| 0 <= j <= k < out.len() implies (#[trigger] out[j]).block_num.0
            <= (#[trigger] out[k]).block_num.0 by {
            if k < sorted.len() {
                assert(out[j] == sorted[j] && out[k] == sorted[k]);
            } else if j < sorted.len() {
                assert(out[j] == sorted[j]);
                assert(sorted[j].block_num.0 <= sorted[sorted.len() - 1].block_num.0);
            }
        }
    } else {
        let front = sorted.drop_last();
        assert(ascends_by_block(front)) by {
            assert forall|j: int, k: int| 0 <= j <= k < front.len() implies (
            #[trigger] front[j]).block_num.0 <= (#[trigger] front[k]).block_num.0 by {
                assert(front[j] == sorted[j] && front[k] == sorted[k]);
            }
        }
        lemma_insert_by_block(front, e);
        let inner = insert_by_block(front, e);
        assert(out == inner.push(sorted.last()));
        assert(sorted =~= front.push(sorted.last()));
        assert(out.to_multiset() =~= sorted.to_multiset().insert(e));
        assert forall|x: BlockEvent| inner.contains(x) implies x.block_num.0
            <= sorted.last().block_num.0 by {
            assert(inner.to_multiset().count(x) > 0) by {
                inner.to_multiset_ensures();
            }
            if x != e {
                assert(front.to_multiset().count(x) > 0);
                front.to_multiset_ensures();
                assert(front.contains(x));
                let w = choose|w: int| 0 <= w < front.len() && front[w] == x;
                assert(sorted[w] == x);
                assert(sorted[w].block_num.0 <= sorted[sorted.len() - 1].block_num.0);
            }
        }
        assert forall|j: int, k: int| 0 <= j <= k < out.len() implies (#[trigger] out[j]).block_num.0
            <= (#[trigger] out[k]).block_num.0 by {
            if k < inner.len() {
                assert(out[j] == inner[j] && out[k] == inner[k]);
            } else if j < inner.len() {
                assert(out[j] == inner[j]);
                assert(inner.contains(inner[j]));
            }
        }
    }
}

/// Sorting puts the events in rising order of their blocks and neither adds
/// nor drops one.
pub proof fn lemma_sorted_by_block(events: Seq<BlockEvent>)
    ensures
        ascends_by_block(sorted_by_block(events)),
        sorted_by_block(events).to_multiset() == events.to_multiset(),
        sorted_by_block(events).len() == events.len(),
    decreases events.len(),
{
    broadcast use vstd::seq_lib::to_multiset_build;

    if events.len() > 0 {
        lemma_sorted_by_block(events.drop_last());
        lemma_insert_by_block(sorted_by_block(events.drop_last()), events.last());
        assert(events =~= events.drop_last().push(events.last()));
        assert(sorted_by_block(events).to_multiset() =~= events.to_multiset());
    }
}

/// An event is among the commits that are verified too exactly when it is a
/// commit and its block has a verification.
proof fn lemma_also_verified_holds(
    committed: Seq<BlockEvent>,
    verified: Seq<BlockEvent>,
    e: BlockEvent,
)
    ensures
        also_verified(committed, verified).contains(e) <==> committed.contains(e) && has_block(
            verified,
            e.block_num.0,
        ),
    decreases committed.len(),
{
    reveal(Seq::filter);
    let out = also_verified(committed, verified);
    if committed.len() == 0 {
        assert(!out.contains(e));
        assert(!committed.contains(e));
    } else {
        let front = committed.drop_last();
        let last = committed.last();
        lemma_also_verified_holds(front, verified, e);
        let inner = also_verified(front, verified);
        if out.contains(e) {
            let i = choose|i: int| 0 <= i < out.len() && out[i] == e;
            if has_block(verified, last.block_num.0) && i == out.len() - 1 {
                assert(committed[committed.len() - 1] == e);
            } else {
                assert(inner[i] == e);
                assert(inner.contains(e));
                let j = choose|j: int| 0 <= j < front.len() && front[j] == e;
                assert(committed[j] == e);
            }
        }
        if committed.contains(e) && has_block(verified, e.block_num.0) {
            let j = choose|j: int| 0 <= j < committed.len() && committed[j] == e;
            if j == committed.len() - 1 {
                assert(out == inner.push(last));
                assert(out[out.len() - 1] == e);
            } else {
                assert(front[j] == e);
                assert(front.contains(e));
                let i = choose|i: int| 0 <= i < inner.len() && inner[i] == e;
                assert(out[i] == e);
            }
        }
    }
}

/// The events that are ready to drive the tree come in rising order of their
/// blocks, and a block is among them exactly when it has both a commit and a
/// verification that no revert has undone.
pub proof fn lemma_ready_events(committed: Seq<BlockEvent>, verified: Seq<BlockEvent>, num: u32)
    ensures
        ascends_by_block(sorted_by_block(also_verified(committed, verified))),
        has_block(sorted_by_block(also_verified(committed, verified)), num) <==> has_block(
            committed,
            num,
        ) && has_block(verified, num),
{
    let both = also_verified(committed, verified);
    let ready = sorted_by_block(both);
    lemma_sorted_by_block(both);
    ready.to_multiset_ensures();
    both.to_multiset_ensures();
    if has_block(ready, num) {
        let i = choose|i: int| 0 <= i < ready.len() && (#[trigger] ready[i]).block_num.0 == num;
        let e = ready[i];
        assert(ready.contains(e));
        assert(ready.to_multiset().count(e) > 0);
        assert(both.to_multiset().count(e) > 0);
        assert(both.contains(e));
        lemma_also_verified_holds(committed, verified, e);
        let j = choose|j: int| 0 <= j < committed.len() && committed[j] == e;
        assert(committed[j].block_num.0 == num);
    }
    if has_block(committed, num) && has_block(verified, num) {
        let j = choose|j: int| 0 <= j < committed.len() && (#[trigger] committed[j]).block_num.0 == num;
        let e = committed[j];
        assert(committed.contains(e));
        lemma_also_verified_holds(committed, verified, e);
        assert(both.contains(e));
        assert(both.to_multiset().count(e) > 0);
        assert(ready.to_multiset().count(e) > 0);
        assert(ready.contains(e));
        let i = choose|i: int| 0 <= i < ready.len() && ready[i] == e;
        assert(ready[i].block_num.0 == num);
    }
}

/// A revert to block `limit` leaves no event of a later block, and keeps
/// every event of a block up to `limit`.
pub proof fn lemma_revert_drops_later_blocks(events: Seq<BlockEvent>, limit: u32, num: u32)
    ensures
        has_block(kept_up_to(events, limit), num) <==> has_block(events, num) && num <= limit,
    decreases events.len(),
{
    reveal(Seq::filter);
    let out = kept_up_to(events, limit);
    if events.len() > 0 {
        let front = events.drop_last();
        let last = events.last();
        let inner = kept_up_to(front, limit);
        lemma_revert_drops_later_blocks(front, limit, num);
        if has_block(out, num) {
            let i = choose|i: int| 0 <= i < out.len() && (#[trigger] out[i]).block_num.0 == num;
            if last.block_num.0 <= limit && i == out.len() - 1 {
                assert(events[events.len() - 1].block_num.0 == num);
            } else {
                assert(inner[i].block_num.0 == num);
                let j = choose|j: int| 0 <= j < front.len() && (#[trigger] front[j]).block_num.0 == num;
                assert(events[j].block_num.0 == num);
            }
        }
        if has_block(events, num) && num <= limit {
            let j = choose|j: int| 0 <= j < events.len() && (#[trigger] events[j]).block_num.0 == num;
            if j == events.len() - 1 {
                assert(out == inner.push(last));
                assert(out[out.len() - 1].block_num.0 == num);
            } else {
                assert(front[j].block_num.0 == num);
                let i = choose|i: int| 0 <= i < inner.len() && (#[trigger] inner[i]).block_num.0 == num;
                assert(out[i].block_num.0 == num);
            }
        }
    }
}

/// The serial numbers of `ops` that are not among `stored`, in order: the
/// priority operations whose block is not stored yet.
pub open spec fn unmatched(ops: Seq<PriorityOpData>, stored: Seq<u64>) -> Seq<u64> {
    serial_ids(ops.filter(|op: PriorityOpData| !stored.contains(op.serial_id)))
}

/// The serial numbers of the priority operations that no stored block holds,
/// where `stored` lists the serial numbers of the priority operations in
/// stored blocks. These are kept for a later attempt.
pub fn unmatched_serial_ids(ops: &Vec<PriorityOpData>, stored: &[u64]) -> (ids: Vec<u64>)
    ensures
        ids@ == unmatched(ops@, stored@),
{
    let mut ids: Vec<u64> = Vec::new();
    let mut i: usize = 0;
    proof {
        reveal(Seq::filter);
    }
    assert(ids@ =~= unmatched(ops@.subrange(0, 0), stored@));
    while i < ops.len()
        invariant
            i <= ops.len(),
            ids@ == unmatched(ops@.subrange(0, i as int), stored@),
        decreases ops.len() - i,
    {
        let op: PriorityOpData = ops[i];
        proof {
            reveal(Seq::filter);
            let next = ops@.subrange(0, i + 1);
            assert(next.drop_last() =~= ops@.subrange(0, i as int));
            assert(next.last() == op);
        }
        let ghost before = ids@;
        if !holds_id(stored, op.serial_id) {
            ids.push(op.serial_id);
        }
        i += 1;
        assert(ids@ =~= unmatched(ops@.subrange(0, i as int), stored@));
    }
    assert(ops@.subrange(0, ops.len() as int) =~= ops@);
    ids
}

/// The events that the restore driver has seen and not yet used up.
#[derive(Debug, Clone, PartialEq, Eq)]
pub struct EventsState {
    /// The commits that no revert has undone, in the order of their logs.
    pub committed_events: Vec<BlockEvent>,
    /// The verifications that no revert has undone, in the order of their logs.
    pub verified_events: Vec<BlockEvent>,
    /// The last L1 block whose logs were taken in.
    pub last_watched_eth_block_number: u64,
    /// The priority operations whose block is not stored yet.
    pub priority_op_data: Vec<PriorityOpData>,
}

impl EventsState {
    /// A state that has seen nothing.
    pub fn new() -> (state: EventsState)
        ensures
            state.committed_events@ == Seq::<BlockEvent>::empty(),
            state.verified_events@ == Seq::<BlockEvent>::empty(),
            state.last_watched_eth_block_number == 0,
            state.priority_op_data@ == Seq::<PriorityOpData>::empty(),
    {
        EventsState {
            committed_events: Vec::new(),
            verified_events: Vec::new(),
            last_watched_eth_block_number: 0,
            priority_op_data: Vec::new(),
        }
    }

    /// Takes in the block events and priority operations of a scanned window,
    /// in the order of their logs, and moves the last watched block to the
    /// window's end.
    pub fn update_events_state(
        &mut self,
        block_events: &Vec<BlockEvent>,
        priority_ops: &Vec<PriorityOpData>,
        last_watched_eth_block_number: u64,
    )
        ensures
            (final(self).committed_events@, final(self).verified_events@) == absorbed(
                (old(self).committed_events@, old(self).verified_events@),
                block_events@,
            ),
            final(self).priority_op_data@ == old(self).priority_op_data@ + priority_ops@,
            final(self).last_watched_eth_block_number == last_watched_eth_block_number,
    {
        let ghost start = (self.committed_events@, self.verified_events@);
        let mut i: usize = 0;
        assert(block_events@.subrange(0, 0) =~= Seq::<BlockEvent>::empty());
        while i < block_events.len()
            invariant
                i <= block_events.len(),
                (self.committed_events@, self.verified_events@) == absorbed(
                    start,
                    block_events@.subrange(0, i as int),
                ),
                self.priority_op_data == old(self).priority_op_data,
            decreases block_events.len() - i,
        {
            let event: BlockEvent = block_events[i];
            proof {
                let next = block_events@.subrange(0, i + 1);
                assert(next.drop_last() =~= block_events@.subrange(0, i as int));
                assert(next.last() == event);
            }
            match event.block_type {
                EventType::Committed => {
                    self.committed_events.push(event);
                },
                EventType::Verified => {
                    self.verified_events.push(event);
                },
                EventType::Reverted => {
                    self.committed_events = keep_up_to(&self.committed_events, event.block_num.0);
                    self.verified_events = keep_up_to(&self.verified_events, event.block_num.0);
                },
            }
            i += 1;
        }
        assert(block_events@.subrange(0, block_events.len() as int) =~= block_events@);
        let mut k: usize = 0;
        while k < priority_ops.len()
            invariant
                k <= priority_ops.len(),
                self.priority_op_data@ == old(self).priority_op_data@ + priority_ops@.subrange(
                    0,
                    k as int,
                ),
                (self.committed_events@, self.verified_events@) == absorbed(start, block_events@),
            decreases priority_ops.len() - k,
        {
            self.priority_op_data.push(priority_ops[k]);
            k += 1;
            assert(self.priority_op_data@ =~= old(self).priority_op_data@ + priority_ops@.subrange(
                0,
                k as int,
            ));
        }
        assert(priority_ops@.subrange(0, priority_ops.len() as int) =~= priority_ops@);
        self.last_watched_eth_block_number = last_watched_eth_block_number;
    }

    /// The commits whose block is verified too, in rising order of their
    /// blocks: the events that are ready to drive the tree.
    pub fn get_only_verified_committed_events(&self) -> (ready: Vec<BlockEvent>)
        ensures
            ready@ == sorted_by_block(also_verified(self.committed_events@, self.verified_events@)),
    {
        let mut both: Vec<BlockEvent> = Vec::new();
        let mut i: usize = 0;
        proof {
            reveal(Seq::filter);
        }
        while i < self.committed_events.len()
            invariant
                i <= self.committed_events.len(),
                both@ == also_verified(
                    self.committed_events@.subrange(0, i as int),
                    self.verified_events@,
                ),
            decreases self.committed_events.len() - i,
        {
            let e: BlockEvent = self.committed_events[i];
            proof {
                reveal(Seq::filter);
                let next = self.committed_events@.subrange(0, i + 1);
                assert(next.drop_last() =~= self.committed_events@.subrange(0, i as int));
                assert(next.last() == e);
            }
            if speaks_of(&self.verified_events, e.block_num.0) {
                both.push(e);
            }
            i += 1;
        }
        assert(self.committed_events@.subrange(0, self.committed_events.len() as int)
            =~= self.committed_events@);
        sort_by_block(&both)
    }

    /// Drops the events of the blocks up to `last_applied`: the tree holds
    /// those blocks, and their events are of no further use.
    pub fn remove_applied_events(&mut self, last_applied: BlockNumber)
        ensures
            final(self).committed_events@ == kept_after(old(self).committed_events@, last_applied.0),
            final(self).verified_events@ == kept_after(old(self).verified_events@, last_applied.0),
            forall|j: int|
                0 <= j < final(self).committed_events@.len() ==> (
                #[trigger] final(self).committed_events@[j]).block_num.0 > last_applied.0,
            forall|j: int|
                0 <= j < final(self).verified_events@.len() ==> (
                #[trigger] final(self).verified_events@[j]).block_num.0 > last_applied.0,
            final(self).priority_op_data == old(self).priority_op_data,
            final(self).last_watched_eth_block_number == old(self).last_watched_eth_block_number,
    {
        self.committed_events = keep_after(&self.committed_events, last_applied.0);
        self.verified_events = keep_after(&self.verified_events, last_applied.0);
    }

    /// Keeps the priority operations whose serial number is among
    /// `kept_serial_ids`, and drops the rest.
    pub fn sift_priority_ops(&mut self, kept_serial_ids: &[u64])
        ensures
            final(self).priority_op_data@ == sifted(old(self).priority_op_data@, kept_serial_ids@),
            final(self).committed_events == old(self).committed_events,
            final(self).verified_events == old(self).verified_events,
            final(self).last_watched_eth_block_number == old(self).last_watched_eth_block_number,
    {
        let mut kept: Vec<PriorityOpData> = Vec::new();
        let mut i: usize = 0;
        proof {
            reveal(Seq::filter);
        }
        while i < self.priority_op_data.len()
            invariant
                i <= self.priority_op_data.len(),
                *self == *old(self),
                kept@ == sifted(self.priority_op_data@.subrange(0, i as int), kept_serial_ids@),
            decreases self.priority_op_data.len() - i,
        {
            let op: PriorityOpData = self.priority_op_data[i];
            proof {
                reveal(Seq::filter);
                let next = self.priority_op_data@.subrange(0, i + 1);
                assert(next.drop_last() =~= self.priority_op_data@.subrange(0, i as int));
                assert(next.last() == op);
            }
            if holds_id(kept_serial_ids, op.serial_id) {
                kept.push(op);
            }
            i += 1;
        }
        assert(self.priority_op_data@.subrange(0, self.priority_op_data.len() as int)
            =~= self.priority_op_data@);
        self.priority_op_data = kept;
    }
}

/// Whether `ids` holds `id`.
pub fn holds_id(ids: &[u64], id: u64) -> (held: bool)
    ensures
        held == ids@.contains(id),
{
    let mut i: usize = 0;
    while i < ids.len()
        invariant
            i <= ids.len(),
            forall|j: int| 0 <= j < i ==> ids@[j] != id,
        decreases ids.len() - i,
    {
        if ids[i] == id {
            return true;
        }
        i += 1;
    }
    false
}

} // verus!

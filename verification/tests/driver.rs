use std::collections::HashMap;

use rollup_recovery::account::{
    apply_account_update, apply_account_updates, Account, AccountUpdate, JournalError,
};
use rollup_recovery::checkpoint::{iteration_plan, StorageUpdateState, StorageWrite};
use rollup_recovery::data_restore_driver::{
    chunk_sizes_for, ChunkSizes, DataRestoreDriver, GenesisError, LoadOutcome, LoopVerdict,
    ReplayStep, UpdateError, IDLE_SLEEP_SECS,
};
use rollup_recovery::events_state::{
    are_in_log_order, contract_version_at, keep_after, keep_up_to, scan_window, sort_by_block,
    unmatched_serial_ids, BlockEvent, EventType, EventsState, LogPosition, PriorityOpData,
};
use rollup_recovery::genesis::{build_genesis_state, NftParams, SPECIAL_TOKEN_DECIMALS};
use rollup_recovery::primitives::{AccountId, Address, BlockNumber, TokenId, H256};
use rollup_recovery::rollup_ops::{CollectError, EventVerdict, OpsCollector};
use rollup_recovery::tokens::TokenKind;
use rollup_recovery::tree_state::{
    count_ops, holds_size, AppliedBlock, RollupOp, RollupOpsBlock, TreeError, TreeState,
};

const NFT_ACCOUNT: u32 = (1 << 24) - 1;
const NFT_TOKEN: u32 = (1 << 31) - 1;
const MIN_NFT_TOKEN: u32 = 1 << 16;

fn params() -> NftParams {
    NftParams {
        nft_token_id: TokenId(NFT_TOKEN),
        nft_storage_account_id: AccountId(NFT_ACCOUNT),
        nft_storage_account_address: Address([0xFF; 20]),
        min_nft_token_id: MIN_NFT_TOKEN,
    }
}

fn fee_address() -> Address {
    let mut bytes = [0u8; 20];
    bytes[19] = 1;
    Address(bytes)
}

fn driver() -> DataRestoreDriver {
    DataRestoreDriver::new(vec![100], 3, 50, 10, true, None)
}

fn event(block: u32, tx: u8, kind: EventType) -> BlockEvent {
    BlockEvent {
        block_num: BlockNumber(block),
        transaction_hash: H256([tx; 32]),
        block_type: kind,
        contract_version: 3,
    }
}

fn ops_block(num: u32, chunks: &[u32], priority: &[bool], version: Option<u32>) -> RollupOpsBlock {
    RollupOpsBlock {
        block_num: BlockNumber(num),
        ops: chunks
            .iter()
            .zip(priority.iter())
            .map(|(c, p)| RollupOp { chunks: *c, priority: *p })
            .collect(),
        fee_account: AccountId(0),
        timestamp: Some(1_600_000_000 + num as u64),
        contract_version: version,
    }
}

fn plain_block(num: u32) -> RollupOpsBlock {
    ops_block(num, &[6, 2, 2], &[true, false, false], Some(3))
}

fn sizes() -> Vec<ChunkSizes> {
    vec![
        ChunkSizes { contract_version: 3, sizes: vec![10, 32] },
        ChunkSizes { contract_version: 4, sizes: vec![32] },
    ]
}

fn tree_at(block: u32) -> TreeState {
    TreeState::load(BlockNumber(block), HashMap::new(), 0, AccountId(0))
}

#[test]
fn new_driver_is_empty() {
    let d = DataRestoreDriver::new(vec![5, 9], 2, 50, 10, true, Some(H256([3; 32])));
    assert_eq!(d.contract_upgrade_eth_blocks, vec![5, 9]);
    assert_eq!(d.init_contract_version, 2);
    assert_eq!(d.eth_blocks_step, 50);
    assert_eq!(d.end_eth_blocks_offset, 10);
    assert!(d.finite_mode);
    assert_eq!(d.final_hash, Some(H256([3; 32])));
    assert_eq!(d.last_priority_op_serial_id, 0);
    assert_eq!(d.events_state, EventsState::new());
    assert_eq!(d.tree_state, TreeState::new());
    assert_eq!(d.tree_state.block_number, BlockNumber(0));
    assert!(d.tree_state.accounts.is_empty());
}

#[test]
fn genesis_only_restart() {
    let mut d = driver();
    let records = d
        .set_genesis_state_from_eth(Some(777), fee_address(), params())
        .unwrap();

    assert_eq!(records.last_watched_eth_block_number, 777);
    assert_eq!(d.events_state.last_watched_eth_block_number, 777);
    assert_eq!(d.tree_state.block_number, BlockNumber(0));
    assert_eq!(d.tree_state.last_fee_account, AccountId(0));
    assert_eq!(d.tree_state.current_unprocessed_priority_op, 0);

    assert_eq!(d.tree_state.accounts.len(), 2);
    let fee = d.tree_state.get_account(AccountId(0)).unwrap();
    assert_eq!(*fee, Account::default_with_address(fee_address()));
    let custody = d.tree_state.get_account(AccountId(NFT_ACCOUNT)).unwrap();
    assert_eq!(custody.address, Address([0xFF; 20]));
    assert_eq!(custody.nonce, 0);
    assert_eq!(custody.get_balance(TokenId(NFT_TOKEN)), MIN_NFT_TOKEN as u128);
    assert_eq!(custody.get_balance(TokenId(0)), 0);
    assert_eq!(custody.balances.len(), 1);

    let token = &records.special_token;
    assert_eq!(token.id, TokenId(NFT_TOKEN));
    assert_eq!(token.symbol, "SPECIAL");
    assert_eq!(token.decimals, 18);
    assert_eq!(SPECIAL_TOKEN_DECIMALS, 18);
    assert_eq!(token.address, Address([0xFF; 20]));
    assert_eq!(token.kind, TokenKind::NFT);
    assert!(token.is_nft);

    assert_eq!(
        records.account_updates,
        vec![
            (AccountId(0), AccountUpdate::Create { address: fee_address(), nonce: 0 }),
            (
                AccountId(NFT_ACCOUNT),
                AccountUpdate::Create { address: Address([0xFF; 20]), nonce: 0 }
            ),
            (
                AccountId(NFT_ACCOUNT),
                AccountUpdate::UpdateBalance {
                    old_nonce: 0,
                    new_nonce: 0,
                    balance_update: (TokenId(NFT_TOKEN), 0, MIN_NFT_TOKEN as u128),
                }
            ),
        ]
    );
}

#[test]
fn genesis_journal_replays_to_genesis_accounts() {
    let fee = Account::default_with_address(fee_address());
    let genesis = build_genesis_state(5, fee, params());
    let mut replayed: HashMap<u32, Account> = HashMap::new();
    apply_account_updates(&mut replayed, &genesis.account_updates).unwrap();
    assert_eq!(replayed, genesis.tree_state.accounts);
    assert_eq!(genesis.last_watched_eth_block_number, 5);
}

#[test]
fn genesis_keeps_the_fee_account_as_given() {
    let mut fee = Account::default_with_address(fee_address());
    fee.nonce = 9;
    fee.set_balance(TokenId(0), 77);
    let mut d = driver();
    let records = d.set_genesis_state(1, fee.clone(), params());
    assert_eq!(d.tree_state.get_account(AccountId(0)), Some(&fee));
    assert_eq!(
        records.account_updates[0],
        (AccountId(0), AccountUpdate::Create { address: fee_address(), nonce: 9 })
    );
}

#[test]
fn genesis_needs_a_block_number() {
    let mut d = driver();
    let before = d.clone();
    assert_eq!(
        d.set_genesis_state_from_eth(None, fee_address(), params()).unwrap_err(),
        GenesisError::NoBlockNumber
    );
    assert_eq!(d, before);
}

#[test]
fn aggregated_commit() {
    let mut d = driver();
    d.tree_state = tree_at(4);
    let events = vec![
        event(5, 0xA, EventType::Committed),
        event(6, 0xA, EventType::Committed),
        event(7, 0xA, EventType::Committed),
        event(5, 0xB, EventType::Verified),
        event(6, 0xB, EventType::Verified),
        event(7, 0xB, EventType::Verified),
    ];
    assert!(d.update_events_state(&events, &vec![], 200));
    assert_eq!(d.events_state.last_watched_eth_block_number, 200);

    let (ready, mut collector) = d.get_new_operation_blocks_from_events();
    assert_eq!(ready.iter().map(|e| e.block_num.0).collect::<Vec<_>>(), vec![5, 6, 7]);
    assert!(ready.iter().all(|e| e.transaction_hash == H256([0xA; 32])));

    let mut fetches = 0;
    for e in &ready {
        match collector.verdict(e) {
            EventVerdict::Skip => continue,
            EventVerdict::Fetch => {
                fetches += 1;
                // The decoder hands out the blocks of the transaction.
                collector.store_fetched(
                    e.transaction_hash,
                    vec![plain_block(5), plain_block(6), plain_block(7)],
                );
            }
            EventVerdict::UseCache => {}
        }
        assert_eq!(collector.collect(e), Ok(true));
    }
    assert_eq!(fetches, 1);
    let blocks = collector.into_blocks();
    assert_eq!(blocks.iter().map(|b| b.block_num.0).collect::<Vec<_>>(), vec![5, 6, 7]);

    let applied = d.update_tree_state(&blocks, &sizes()).unwrap();
    assert_eq!(applied.len(), 3);
    assert_eq!(d.tree_state.block_number, BlockNumber(7));
    assert_eq!(d.last_priority_op_serial_id, 3);

    d.finish_tree_update(&[]);
    assert!(d.events_state.committed_events.iter().all(|e| e.block_num.0 > 7));
    assert!(d.events_state.verified_events.iter().all(|e| e.block_num.0 > 7));
    assert!(d.events_state.committed_events.is_empty());
    assert!(d.events_state.verified_events.is_empty());
}

#[test]
fn contract_version_boundary() {
    assert_eq!(contract_version_at(&[100], 3, 99), Some(3));
    assert_eq!(contract_version_at(&[100], 3, 100), Some(4));
    assert_eq!(contract_version_at(&[100], 3, 101), Some(4));
    assert_eq!(contract_version_at(&[100], 3, 0), Some(3));

    // A block of ten chunks is admitted under version 3 and not under version 4.
    let mut d = driver();
    let under_v3 = ops_block(1, &[6, 2, 2], &[false, false, false], Some(3));
    assert!(d.update_tree_state(&vec![under_v3], &sizes()).is_ok());
    let under_v4 = ops_block(2, &[6, 2, 2], &[false, false, false], Some(4));
    assert_eq!(
        d.update_tree_state(&vec![under_v4], &sizes()).unwrap_err(),
        (0, UpdateError::Tree { error: TreeError::OpsDecodeError { chunks: 10 } })
    );
    assert_eq!(d.tree_state.block_number, BlockNumber(1));
}

#[test]
fn contract_version_counts_upgrades() {
    assert_eq!(contract_version_at(&[], 0, 5), Some(0));
    assert_eq!(contract_version_at(&[10, 20, 30], 1, 9), Some(1));
    assert_eq!(contract_version_at(&[10, 20, 30], 1, 10), Some(2));
    assert_eq!(contract_version_at(&[10, 20, 30], 1, 29), Some(3));
    assert_eq!(contract_version_at(&[10, 20, 30], 1, 30), Some(4));
    assert_eq!(contract_version_at(&[10, 20, 30], 1, u64::MAX), Some(4));
    assert_eq!(contract_version_at(&[30, 10, 20], 1, 15), Some(2));
    assert_eq!(contract_version_at(&[10], u32::MAX, 9), Some(u32::MAX));
    assert_eq!(contract_version_at(&[10], u32::MAX, 10), None);
}

fn run_blocks(d: &mut DataRestoreDriver) {
    let (ready, mut collector) = d.get_new_operation_blocks_from_events();
    for e in &ready {
        if collector.verdict(e) == EventVerdict::Fetch {
            collector.store_fetched(e.transaction_hash, vec![plain_block(e.block_num.0)]);
        }
        collector.collect(e).unwrap();
    }
    let blocks = collector.into_blocks();
    d.update_tree_state(&blocks, &sizes()).unwrap();
    d.finish_tree_update(&[]);
}

#[test]
fn resume_from_events() {
    let events = vec![
        event(1, 1, EventType::Committed),
        event(2, 2, EventType::Committed),
        event(1, 3, EventType::Verified),
        event(2, 4, EventType::Verified),
    ];

    // A run without a crash.
    let mut straight = driver();
    straight.set_genesis_state(10, Account::default_with_address(fee_address()), params());
    straight.update_events_state(&events, &vec![], 60);
    let saved_events = straight.events_state.clone();
    let saved_tree = straight.tree_state.clone();
    run_blocks(&mut straight);

    // A run that crashed after the events were saved.
    let mut resumed = driver();
    let replay = resumed.load_state_from_storage(StorageUpdateState::Events, saved_events, saved_tree);
    assert_eq!(replay, ReplayStep::DecodeFromEvents);
    run_blocks(&mut resumed);

    assert_eq!(resumed.tree_state, straight.tree_state);
    assert_eq!(resumed.tree_state.block_number, BlockNumber(2));
    assert_eq!(resumed.last_priority_op_serial_id, straight.last_priority_op_serial_id);
}

#[test]
fn resume_paths() {
    let mut d = driver();
    let events = EventsState::new();
    assert_eq!(
        d.load_state_from_storage(StorageUpdateState::Operations, events.clone(), tree_at(3)),
        ReplayStep::LoadSavedOps
    );
    assert_eq!(d.tree_state.block_number, BlockNumber(3));
    assert_eq!(
        d.load_state_from_storage(StorageUpdateState::Complete, events.clone(), tree_at(4)),
        ReplayStep::Nothing
    );
    assert_eq!(
        d.load_state_from_storage(StorageUpdateState::Events, events, tree_at(5)),
        ReplayStep::DecodeFromEvents
    );
}

#[test]
fn finish_loading_outcomes() {
    let mut d = driver();
    d.tree_state = tree_at(8);
    assert_eq!(
        d.finish_loading(41, 8, true),
        LoadOutcome { is_finished: true, save_tree_cache: false }
    );
    assert_eq!(d.last_priority_op_serial_id, 41);
    assert_eq!(
        d.finish_loading(41, 9, false),
        LoadOutcome { is_finished: false, save_tree_cache: true }
    );
    d.finite_mode = false;
    assert_eq!(
        d.finish_loading(41, 8, false),
        LoadOutcome { is_finished: false, save_tree_cache: true }
    );
}

#[test]
fn duplicate_events_are_filtered() {
    let mut d = driver();
    d.tree_state = tree_at(5);
    let events = vec![
        event(4, 1, EventType::Committed),
        event(5, 2, EventType::Committed),
        event(6, 3, EventType::Committed),
        event(6, 3, EventType::Committed),
        event(4, 4, EventType::Verified),
        event(5, 5, EventType::Verified),
        event(6, 6, EventType::Verified),
    ];
    d.update_events_state(&events, &vec![], 9);
    let (ready, mut collector) = d.get_new_operation_blocks_from_events();
    assert_eq!(ready.iter().map(|e| e.block_num.0).collect::<Vec<_>>(), vec![6, 6]);

    assert_eq!(collector.verdict(&event(4, 1, EventType::Committed)), EventVerdict::Skip);
    assert_eq!(collector.verdict(&event(5, 2, EventType::Committed)), EventVerdict::Skip);
    assert_eq!(collector.collect(&event(5, 2, EventType::Committed)), Ok(false));

    assert_eq!(collector.verdict(&ready[0]), EventVerdict::Fetch);
    collector.store_fetched(ready[0].transaction_hash, vec![plain_block(6)]);
    assert_eq!(collector.collect(&ready[0]), Ok(true));
    // The second event of block 6 is passed over.
    assert_eq!(collector.verdict(&ready[1]), EventVerdict::Skip);
    assert_eq!(collector.collect(&ready[1]), Ok(false));
    assert_eq!(collector.into_blocks().len(), 1);
}

#[test]
fn collector_errors() {
    let mut collector = OpsCollector::new(BlockNumber(0));
    let e = event(1, 7, EventType::Committed);
    assert_eq!(collector.collect(&e), Err(CollectError::NotFetched));
    collector.store_fetched(H256([7; 32]), vec![plain_block(2)]);
    assert_eq!(collector.verdict(&e), EventVerdict::UseCache);
    assert_eq!(
        collector.collect(&e),
        Err(CollectError::BlockNotFound { block: BlockNumber(1) })
    );
    // Another transaction's blocks are never used.
    let other = event(2, 8, EventType::Committed);
    assert_eq!(collector.verdict(&other), EventVerdict::Fetch);
    assert_eq!(collector.collect(&other), Err(CollectError::NotFetched));
    assert!(collector.blocks.is_empty());
}

#[test]
fn collector_takes_the_last_block_of_a_number() {
    let mut collector = OpsCollector::new(BlockNumber(0));
    let first = ops_block(1, &[1], &[false], Some(3));
    let second = ops_block(1, &[2], &[false], Some(3));
    collector.store_fetched(H256([7; 32]), vec![first.clone(), second.clone(), plain_block(2)]);
    assert_eq!(collector.collect(&event(1, 7, EventType::Committed)), Ok(true));
    assert_eq!(collector.blocks, vec![second]);
    assert_eq!(collector.last_tx_blocks, vec![first, plain_block(2)]);
    assert_eq!(collector.last_processed_block, BlockNumber(1));
}

#[test]
fn scan_window_formula() {
    assert_eq!(scan_window(10, 100, 5, 20), Some((11, 30)));
    assert_eq!(scan_window(10, 100, 5, 1000), Some((11, 95)));
    assert_eq!(scan_window(10, 100, 5, 85), Some((11, 95)));
    assert_eq!(scan_window(10, 100, 5, 1), Some((11, 11)));
    assert_eq!(scan_window(94, 100, 5, 20), Some((95, 95)));
}

#[test]
fn scan_window_without_progress() {
    assert_eq!(scan_window(95, 100, 5, 20), None);
    assert_eq!(scan_window(99, 100, 5, 20), None);
    assert_eq!(scan_window(10, 100, 5, 0), None);
    assert_eq!(scan_window(10, 3, 5, 20), None);
    assert_eq!(scan_window(u64::MAX, u64::MAX, 0, 20), None);
    assert_eq!(scan_window(0, 0, 0, 1), None);
}

#[test]
fn scan_window_at_the_limits() {
    assert_eq!(scan_window(0, u64::MAX, 0, u64::MAX), Some((1, u64::MAX)));
    assert_eq!(
        scan_window(u64::MAX - 1, u64::MAX, 0, u64::MAX),
        Some((u64::MAX, u64::MAX))
    );
    assert_eq!(scan_window(5, u64::MAX, 0, u64::MAX - 5), Some((6, u64::MAX)));
    assert_eq!(scan_window(5, u64::MAX, 0, u64::MAX - 6), Some((6, u64::MAX - 1)));
}

#[test]
fn only_verified_committed_events() {
    let mut state = EventsState::new();
    state.update_events_state(
        &vec![
            event(3, 1, EventType::Committed),
            event(1, 2, EventType::Committed),
            event(2, 3, EventType::Committed),
            event(4, 4, EventType::Committed),
            event(2, 5, EventType::Verified),
            event(1, 6, EventType::Verified),
            event(9, 7, EventType::Verified),
        ],
        &vec![],
        50,
    );
    let ready = state.get_only_verified_committed_events();
    assert_eq!(
        ready,
        vec![event(1, 2, EventType::Committed), event(2, 3, EventType::Committed)]
    );
}

#[test]
fn reverts_undo_later_commits() {
    let mut state = EventsState::new();
    state.update_events_state(
        &vec![
            event(1, 1, EventType::Committed),
            event(2, 2, EventType::Committed),
            event(3, 3, EventType::Committed),
            event(1, 4, EventType::Verified),
            event(1, 5, EventType::Reverted),
            event(2, 6, EventType::Verified),
        ],
        &vec![],
        50,
    );
    assert_eq!(state.committed_events, vec![event(1, 1, EventType::Committed)]);
    assert_eq!(
        state.verified_events,
        vec![event(1, 4, EventType::Verified), event(2, 6, EventType::Verified)]
    );
    // Block 2 was verified, but its commit was reverted and not made again.
    assert_eq!(
        state.get_only_verified_committed_events(),
        vec![event(1, 1, EventType::Committed)]
    );

    state.update_events_state(&vec![event(2, 7, EventType::Committed)], &vec![], 60);
    assert_eq!(
        state.get_only_verified_committed_events(),
        vec![event(1, 1, EventType::Committed), event(2, 7, EventType::Committed)]
    );
    assert_eq!(state.last_watched_eth_block_number, 60);
}

#[test]
fn sorting_is_stable() {
    let events = vec![
        event(2, 1, EventType::Committed),
        event(1, 2, EventType::Committed),
        event(2, 3, EventType::Committed),
        event(1, 4, EventType::Committed),
        event(0, 5, EventType::Committed),
    ];
    let sorted = sort_by_block(&events);
    assert_eq!(
        sorted,
        vec![events[4], events[1], events[3], events[0], events[2]]
    );
    assert_eq!(sort_by_block(&vec![]), vec![]);
}

#[test]
fn keeping_events_by_block() {
    let events = vec![
        event(1, 1, EventType::Committed),
        event(5, 2, EventType::Committed),
        event(3, 3, EventType::Committed),
    ];
    assert_eq!(keep_up_to(&events, 3), vec![events[0], events[2]]);
    assert_eq!(keep_up_to(&events, 0), vec![]);
    assert_eq!(keep_after(&events, 3), vec![events[1]]);
    assert_eq!(keep_after(&events, 0), events);
}

fn priority(serial_id: u64) -> PriorityOpData {
    PriorityOpData {
        serial_id,
        eth_block: 10 + serial_id,
        eth_hash: H256([serial_id as u8; 32]),
        log_index: serial_id,
    }
}

#[test]
fn sift_priority_ops() {
    let mut state = EventsState::new();
    state.update_events_state(
        &vec![],
        &vec![priority(1), priority(2), priority(3), priority(4)],
        5,
    );
    state.sift_priority_ops(&[4, 2, 9]);
    assert_eq!(state.priority_op_data, vec![priority(2), priority(4)]);
    state.sift_priority_ops(&[]);
    assert!(state.priority_op_data.is_empty());
}

#[test]
fn unmatched_priority_ops_are_kept() {
    let ops = vec![priority(1), priority(2), priority(3)];
    assert_eq!(unmatched_serial_ids(&ops, &[2]), vec![1, 3]);
    assert_eq!(unmatched_serial_ids(&ops, &[]), vec![1, 2, 3]);
    assert_eq!(unmatched_serial_ids(&ops, &[3, 2, 1]), Vec::<u64>::new());

    let mut d = driver();
    d.update_events_state(&vec![], &ops, 5);
    let kept = unmatched_serial_ids(&d.events_state.priority_op_data, &[1]);
    d.finish_tree_update(&kept);
    assert_eq!(d.events_state.priority_op_data, vec![priority(2), priority(3)]);
}

#[test]
fn update_events_state_reports_progress() {
    let mut d = driver();
    assert!(!d.update_events_state(&vec![], &vec![priority(1)], 12));
    assert_eq!(d.events_state.last_watched_eth_block_number, 12);
    assert_eq!(d.events_state.priority_op_data, vec![priority(1)]);
    assert!(d.update_events_state(&vec![event(1, 1, EventType::Committed)], &vec![], 13));
}

#[test]
fn log_order() {
    let at = |b, t, l| LogPosition { block_number: b, transaction_index: t, log_index: l };
    assert!(at(1, 9, 9).precedes(at(2, 0, 0)));
    assert!(!at(2, 0, 0).precedes(at(1, 9, 9)));
    assert!(at(1, 1, 9).precedes(at(1, 2, 0)));
    assert!(!at(1, 2, 0).precedes(at(1, 1, 9)));
    assert!(at(1, 1, 1).precedes(at(1, 1, 2)));
    assert!(!at(1, 1, 2).precedes(at(1, 1, 1)));
    assert!(at(1, 1, 1).precedes(at(1, 1, 1)));

    assert!(are_in_log_order(&[]));
    assert!(are_in_log_order(&[at(5, 5, 5)]));
    assert!(are_in_log_order(&[at(1, 0, 0), at(1, 0, 1), at(1, 2, 0), at(2, 0, 0), at(2, 0, 0)]));
    assert!(!are_in_log_order(&[at(1, 0, 0), at(1, 2, 0), at(1, 0, 1)]));
    assert!(!are_in_log_order(&[at(2, 0, 0), at(1, 9, 9)]));
}

#[test]
fn tree_applies_the_next_block() {
    let mut tree = tree_at(4);
    let mut serial = 10u64;
    let block = ops_block(5, &[6, 2, 6, 18], &[true, false, true, false], Some(3));
    let done = tree
        .update_tree_states_from_ops_block(&block, &[10, 32], &mut serial)
        .unwrap();
    assert_eq!(
        done,
        AppliedBlock {
            block_number: BlockNumber(5),
            fee_account: AccountId(0),
            block_chunks_size: 32,
            first_priority_serial_id: 10,
            priority_ops: 2,
        }
    );
    assert_eq!(tree.block_number, BlockNumber(5));
    assert_eq!(tree.current_unprocessed_priority_op, 2);
    assert_eq!(serial, 12);
}

#[test]
fn tree_refuses_blocks() {
    let mut tree = tree_at(4);
    let mut serial = 10u64;
    let before = tree.clone();

    let skipped = ops_block(6, &[10], &[false], Some(3));
    assert_eq!(
        tree.update_tree_states_from_ops_block(&skipped, &[10], &mut serial),
        Err(TreeError::OutOfOrderBlock { expected: 5, found: 6 })
    );
    let repeated = ops_block(4, &[10], &[false], Some(3));
    assert_eq!(
        tree.update_tree_states_from_ops_block(&repeated, &[10], &mut serial),
        Err(TreeError::OutOfOrderBlock { expected: 5, found: 4 })
    );
    let odd = ops_block(5, &[9], &[true], Some(3));
    assert_eq!(
        tree.update_tree_states_from_ops_block(&odd, &[10, 32], &mut serial),
        Err(TreeError::OpsDecodeError { chunks: 9 })
    );
    assert_eq!(
        tree.update_tree_states_from_ops_block(&odd, &[], &mut serial),
        Err(TreeError::OpsDecodeError { chunks: 9 })
    );
    let mut full = u64::MAX;
    assert_eq!(
        tree.update_tree_states_from_ops_block(&ops_block(5, &[9], &[true], Some(3)), &[9], &mut full),
        Err(TreeError::PriorityCounterOverflow)
    );
    assert_eq!(full, u64::MAX);
    assert_eq!(serial, 10);
    assert_eq!(tree, before);

    let mut last = tree_at(u32::MAX);
    assert_eq!(
        last.update_tree_states_from_ops_block(&ops_block(0, &[9], &[false], Some(3)), &[9], &mut serial),
        Err(TreeError::OutOfOrderBlock { expected: 1 << 32, found: 0 })
    );
}

#[test]
fn counting_ops() {
    assert_eq!(count_ops(&vec![]), (Some(0), Some(0)));
    let block = ops_block(1, &[6, 2, 6], &[true, false, true], None);
    assert_eq!(count_ops(&block.ops), (Some(14), Some(2)));
    assert!(holds_size(&[1, 2, 3], 2));
    assert!(!holds_size(&[1, 2, 3], 4));
    assert!(!holds_size(&[], 0));
}

#[test]
fn update_tree_state_over_several_blocks() {
    let mut d = driver();
    d.tree_state = tree_at(10);
    d.last_priority_op_serial_id = 100;
    let blocks = vec![
        ops_block(11, &[6, 4], &[true, true], Some(3)),
        ops_block(12, &[10], &[false], Some(3)),
        ops_block(13, &[32], &[true], Some(4)),
    ];
    let applied = d.update_tree_state(&blocks, &sizes()).unwrap();
    assert_eq!(
        applied.iter().map(|a| a.block_number.0).collect::<Vec<_>>(),
        vec![11, 12, 13]
    );
    assert_eq!(
        applied.iter().map(|a| a.first_priority_serial_id).collect::<Vec<_>>(),
        vec![100, 102, 102]
    );
    assert_eq!(
        applied.iter().map(|a| a.priority_ops).collect::<Vec<_>>(),
        vec![2, 0, 1]
    );
    assert_eq!(d.tree_state.block_number, BlockNumber(13));
    assert_eq!(d.last_priority_op_serial_id, 103);
    assert_eq!(d.tree_state.current_unprocessed_priority_op, 3);
}

#[test]
fn update_tree_state_stops_at_the_first_refusal() {
    let mut d = driver();
    let blocks = vec![
        ops_block(1, &[10], &[true], Some(3)),
        ops_block(2, &[10], &[true], None),
        ops_block(3, &[10], &[true], Some(3)),
    ];
    assert_eq!(
        d.update_tree_state(&blocks, &sizes()).unwrap_err(),
        (1, UpdateError::MissingContractVersion)
    );
    assert_eq!(d.tree_state.block_number, BlockNumber(1));
    assert_eq!(d.last_priority_op_serial_id, 1);

    let unknown = vec![ops_block(2, &[10], &[true], Some(9))];
    assert_eq!(
        d.update_tree_state(&unknown, &sizes()).unwrap_err(),
        (0, UpdateError::UnknownContractVersion { version: 9 })
    );
    let gap = vec![ops_block(3, &[10], &[true], Some(3))];
    assert_eq!(
        d.update_tree_state(&gap, &sizes()).unwrap_err(),
        (
            0,
            UpdateError::Tree { error: TreeError::OutOfOrderBlock { expected: 2, found: 3 } }
        )
    );
    assert_eq!(d.update_tree_state(&vec![], &sizes()), Ok(vec![]));
}

#[test]
fn chunk_sizes_by_version() {
    let table = vec![
        ChunkSizes { contract_version: 3, sizes: vec![1] },
        ChunkSizes { contract_version: 4, sizes: vec![2] },
        ChunkSizes { contract_version: 3, sizes: vec![3] },
    ];
    assert_eq!(chunk_sizes_for(&table, 3), Some(&vec![3]));
    assert_eq!(chunk_sizes_for(&table, 4), Some(&vec![2]));
    assert_eq!(chunk_sizes_for(&table, 5), None);
    assert_eq!(chunk_sizes_for(&vec![], 3), None);
}

#[test]
fn steady_loop_verdicts() {
    let mut d = DataRestoreDriver::new(vec![], 0, 50, 10, true, Some(H256([9; 32])));
    d.tree_state = tree_at(5);
    let mut state = d.run_state_update();
    assert!(!state.final_hash_was_found);
    assert_eq!(
        d.after_blocks_applied(&mut state, &H256([1; 32]), 8),
        LoopVerdict::Continue
    );
    assert_eq!(
        d.after_blocks_applied(&mut state, &H256([1; 32]), 5),
        LoopVerdict::FinalHashNotMet
    );
    assert_eq!(
        d.after_blocks_applied(&mut state, &H256([9; 32]), 8),
        LoopVerdict::Continue
    );
    assert!(state.final_hash_was_found);
    // The expected hash was met at an earlier block: the restore ends well.
    assert_eq!(
        d.after_blocks_applied(&mut state, &H256([1; 32]), 5),
        LoopVerdict::Finished
    );

    let mut open = DataRestoreDriver::new(vec![], 0, 50, 10, false, None);
    open.tree_state = tree_at(5);
    let mut state = open.run_state_update();
    assert_eq!(
        open.after_blocks_applied(&mut state, &H256([1; 32]), 5),
        LoopVerdict::Continue
    );
    open.finite_mode = true;
    assert_eq!(
        open.after_blocks_applied(&mut state, &H256([1; 32]), 5),
        LoopVerdict::Finished
    );
}

#[test]
fn steady_loop_rests_without_progress() {
    assert_eq!(IDLE_SLEEP_SECS, 5);
    let mut d = driver();
    d.update_events_state(&vec![], &vec![], 40);
    let mut state = d.run_state_update();
    assert_eq!(state.last_watched_block, 40);
    assert!(d.end_of_iteration(&mut state));
    d.update_events_state(&vec![], &vec![], 90);
    assert!(!d.end_of_iteration(&mut state));
    assert_eq!(state.last_watched_block, 90);
    assert!(d.end_of_iteration(&mut state));
}

#[test]
fn checkpoint_moves() {
    let start = StorageUpdateState::Complete;
    assert_eq!(start.after(StorageWrite::SaveEventsState), StorageUpdateState::Events);
    assert_eq!(
        StorageUpdateState::Events.after(StorageWrite::UpdateTreeState { block: BlockNumber(1) }),
        StorageUpdateState::Operations
    );
    assert_eq!(
        StorageUpdateState::Operations.after(StorageWrite::UpdateTreeCache { block: BlockNumber(1) }),
        StorageUpdateState::Complete
    );
    for state in [
        StorageUpdateState::Complete,
        StorageUpdateState::Events,
        StorageUpdateState::Operations,
    ] {
        for write in [
            StorageWrite::SaveRollupOps,
            StorageWrite::SaveGenesisTreeState,
            StorageWrite::SaveSpecialToken,
            StorageWrite::ApplyPriorityOpData,
            StorageWrite::UpdateEthState,
        ] {
            assert_eq!(state.after(write), state);
        }
    }
}

#[test]
fn iteration_ends_with_the_tree_cache() {
    let writes = iteration_plan(BlockNumber(4), 3);
    assert_eq!(
        writes,
        vec![
            StorageWrite::SaveEventsState,
            StorageWrite::SaveRollupOps,
            StorageWrite::UpdateTreeState { block: BlockNumber(5) },
            StorageWrite::UpdateTreeState { block: BlockNumber(6) },
            StorageWrite::UpdateTreeState { block: BlockNumber(7) },
            StorageWrite::ApplyPriorityOpData,
            StorageWrite::UpdateEthState,
            StorageWrite::UpdateTreeCache { block: BlockNumber(7) },
        ]
    );
    let end = writes
        .iter()
        .fold(StorageUpdateState::Operations, |state, write| state.after(*write));
    assert_eq!(end, StorageUpdateState::Complete);

    let idle = iteration_plan(BlockNumber(4), 0);
    assert_eq!(idle, vec![StorageWrite::SaveEventsState, StorageWrite::SaveRollupOps]);
    let end = idle
        .iter()
        .fold(StorageUpdateState::Complete, |state, write| state.after(*write));
    assert_eq!(end, StorageUpdateState::Events);
}

#[test]
fn account_balances() {
    let mut account = Account::default_with_address(fee_address());
    assert_eq!(account.get_balance(TokenId(3)), 0);
    account.set_balance(TokenId(3), 50);
    account.set_balance(TokenId(4), u128::MAX);
    account.set_balance(TokenId(3), 20);
    assert_eq!(account.get_balance(TokenId(3)), 20);
    assert_eq!(account.get_balance(TokenId(4)), u128::MAX);
    assert_eq!(account.address, fee_address());
    assert_eq!(account.nonce, 0);

    let (created, journal) = Account::create_account(AccountId(7), fee_address());
    assert_eq!(created, Account::default_with_address(fee_address()));
    assert_eq!(
        journal,
        vec![(AccountId(7), AccountUpdate::Create { address: fee_address(), nonce: 0 })]
    );
}

#[test]
fn journal_replay_errors() {
    let mut accounts: HashMap<u32, Account> = HashMap::new();
    let create = AccountUpdate::Create { address: fee_address(), nonce: 2 };
    let credit = |old_nonce, old, new| AccountUpdate::UpdateBalance {
        old_nonce,
        new_nonce: old_nonce + 1,
        balance_update: (TokenId(1), old, new),
    };
    assert_eq!(
        apply_account_update(&mut accounts, AccountId(1), credit(0, 0, 5)),
        Err(JournalError::AccountMissing { id: AccountId(1) })
    );
    assert_eq!(apply_account_update(&mut accounts, AccountId(1), create), Ok(()));
    assert_eq!(accounts[&1].nonce, 2);
    assert_eq!(
        apply_account_update(&mut accounts, AccountId(1), create),
        Err(JournalError::AccountExists { id: AccountId(1) })
    );
    assert_eq!(
        apply_account_update(&mut accounts, AccountId(1), credit(0, 0, 5)),
        Err(JournalError::NonceMismatch { id: AccountId(1), journal_nonce: 0, account_nonce: 2 })
    );
    assert_eq!(
        apply_account_update(&mut accounts, AccountId(1), credit(2, 1, 5)),
        Err(JournalError::BalanceMismatch {
            id: AccountId(1),
            token: TokenId(1),
            journal_balance: 1,
            account_balance: 0
        })
    );
    assert_eq!(apply_account_update(&mut accounts, AccountId(1), credit(2, 0, 5)), Ok(()));
    assert_eq!(accounts[&1].nonce, 3);
    assert_eq!(accounts[&1].get_balance(TokenId(1)), 5);
    assert_eq!(accounts.len(), 1);

    let journal = vec![
        (AccountId(2), create),
        (AccountId(2), credit(2, 0, 9)),
        (AccountId(3), credit(0, 0, 9)),
        (AccountId(4), create),
    ];
    assert_eq!(
        apply_account_updates(&mut accounts, &journal),
        Err((2, JournalError::AccountMissing { id: AccountId(3) }))
    );
    assert_eq!(accounts[&2].get_balance(TokenId(1)), 9);
    assert!(!accounts.contains_key(&4));
}

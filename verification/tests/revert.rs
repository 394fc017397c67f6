use rollup_recovery::primitives::BlockNumber;
use rollup_recovery::revert::{
    confirmation_step, get_blocks, next_storage_revert_step, plan_revert, receipt_succeeded,
    revert_blocks_in_storage, revert_gas_limit, ConfirmationStep, RevertError, RevertMode,
    StorageRevertStep, CONFIRMATION_TIMEOUT_SECS, RECEIPT_POLL_INTERVAL_MS,
};
use rollup_recovery::revert_run::{
    RevertAction, RevertEvent, RevertFailure, RevertRun, RevertStage,
};

fn numbers(blocks: &[BlockNumber]) -> Vec<u32> {
    blocks.iter().map(|b| b.0).collect()
}

#[test]
fn revert_blocks_10_to_15() {
    let plan = plan_revert(RevertMode::All, 10, BlockNumber(15), BlockNumber(10)).unwrap();
    assert_eq!(plan.last_correct_block, BlockNumber(10));
    assert!(plan.storage);
    let call = plan.contract.unwrap();
    assert_eq!(numbers(&call.blocks), vec![15, 14, 13, 12, 11]);
    assert_eq!(call.gas_limit, 275_000);
}

#[test]
fn revert_refused_when_blocks_are_verified() {
    let refused = plan_revert(RevertMode::All, 10, BlockNumber(15), BlockNumber(12)).unwrap_err();
    assert_eq!(refused, RevertError::AlreadyVerified);
    assert_eq!(refused.message(), "Some blocks to revert are already verified");
    for mode in [RevertMode::Contract, RevertMode::Storage] {
        assert_eq!(
            plan_revert(mode, 10, BlockNumber(15), BlockNumber(11)).unwrap_err(),
            RevertError::AlreadyVerified
        );
    }
}

#[test]
fn revert_refused_when_nothing_is_committed_above() {
    assert_eq!(
        plan_revert(RevertMode::All, 15, BlockNumber(15), BlockNumber(10)).unwrap_err(),
        RevertError::NothingToRevert
    );
    assert_eq!(
        plan_revert(RevertMode::All, 20, BlockNumber(15), BlockNumber(10)).unwrap_err(),
        RevertError::NothingToRevert
    );
    // The verified blocks are looked at first.
    assert_eq!(
        plan_revert(RevertMode::All, 5, BlockNumber(5), BlockNumber(6)).unwrap_err(),
        RevertError::AlreadyVerified
    );
    assert!(!RevertError::NothingToRevert.message().is_empty());
}

#[test]
fn revert_plan_by_mode() {
    let contract = plan_revert(RevertMode::Contract, 3, BlockNumber(4), BlockNumber(3)).unwrap();
    assert!(!contract.storage);
    let call = contract.contract.unwrap();
    assert_eq!(numbers(&call.blocks), vec![4]);
    assert_eq!(call.gas_limit, 215_000);

    let storage = plan_revert(RevertMode::Storage, 3, BlockNumber(4), BlockNumber(0)).unwrap();
    assert!(storage.storage);
    assert!(storage.contract.is_none());
    assert_eq!(storage.last_correct_block, BlockNumber(3));

    assert!(RevertMode::All.reverts_contract() && RevertMode::All.reverts_storage());
    assert!(RevertMode::Contract.reverts_contract() && !RevertMode::Contract.reverts_storage());
    assert!(!RevertMode::Storage.reverts_contract() && RevertMode::Storage.reverts_storage());
}

#[test]
fn revert_to_the_verified_block_is_allowed() {
    assert!(plan_revert(RevertMode::All, 10, BlockNumber(11), BlockNumber(10)).is_ok());
    assert!(plan_revert(RevertMode::All, 0, BlockNumber(1), BlockNumber(0)).is_ok());
}

#[test]
fn gas_limit_formula() {
    assert_eq!(revert_gas_limit(0), 200_000);
    assert_eq!(revert_gas_limit(1), 215_000);
    assert_eq!(revert_gas_limit(5), 275_000);
    assert_eq!(revert_gas_limit(u32::MAX), 200_000 + 15_000 * (u32::MAX as u64));
}

#[test]
fn blocks_come_newest_first() {
    assert_eq!(numbers(&get_blocks(BlockNumber(15), 5)), vec![15, 14, 13, 12, 11]);
    assert_eq!(numbers(&get_blocks(BlockNumber(15), 0)), Vec::<u32>::new());
    assert_eq!(numbers(&get_blocks(BlockNumber(3), 3)), vec![3, 2, 1]);
    assert_eq!(numbers(&get_blocks(BlockNumber(u32::MAX), 1)), vec![u32::MAX]);
}

#[test]
fn storage_revert_steps_in_order() {
    let plan = revert_blocks_in_storage();
    assert_eq!(
        plan,
        vec![
            StorageRevertStep::ReturnExecutedTxsToMempool,
            StorageRevertStep::ClearCommittedNonces,
            StorageRevertStep::RemoveBlocks,
            StorageRevertStep::RemovePendingBlock,
            StorageRevertStep::RemoveAccountTreeCache,
            StorageRevertStep::RemoveAccountBalanceUpdates,
            StorageRevertStep::RemoveAccountCreates,
            StorageRevertStep::RemoveAccountPubkeyUpdates,
            StorageRevertStep::RemoveMintNftUpdates,
            StorageRevertStep::RemoveUnprocessedAggregatedOps,
            StorageRevertStep::RemoveAggregateOperationsAndBindings,
            StorageRevertStep::RemoveWitnesses,
            StorageRevertStep::RemoveProofs,
            StorageRevertStep::RemoveAggregatedProofs,
            StorageRevertStep::RemoveProverJobs,
            StorageRevertStep::UpdateEthParameters,
        ]
    );
    for (done, step) in plan.iter().enumerate() {
        assert_eq!(next_storage_revert_step(done), Some(*step));
    }
    assert_eq!(next_storage_revert_step(16), None);
    assert_eq!(next_storage_revert_step(usize::MAX), None);
}

#[test]
fn storage_revert_steps_bounded_by_block() {
    let unbounded: Vec<StorageRevertStep> = revert_blocks_in_storage()
        .into_iter()
        .filter(|s| !s.takes_last_block())
        .collect();
    assert_eq!(
        unbounded,
        vec![
            StorageRevertStep::RemovePendingBlock,
            StorageRevertStep::RemoveUnprocessedAggregatedOps
        ]
    );
}

#[test]
fn storage_revert_reports() {
    assert_eq!(
        StorageRevertStep::ReturnExecutedTxsToMempool.report(),
        "`mempool_txs`, `executed_transactions` tables are updated"
    );
    assert_eq!(StorageRevertStep::RemoveBlocks.report(), "`block` table is cleaned");
    assert_eq!(
        StorageRevertStep::RemoveAggregateOperationsAndBindings.report(),
        "`aggregate_operations`, `eth_aggregated_ops_binding`, `eth_tx_hashes`, `eth_operations` tables are cleaned"
    );
    assert_eq!(
        StorageRevertStep::UpdateEthParameters.report(),
        "`eth_parameters` table is updated"
    );
    let mut seen = std::collections::HashSet::new();
    for step in revert_blocks_in_storage() {
        assert!(seen.insert(step.report()));
    }
}

#[test]
fn confirmation_wait() {
    assert_eq!(RECEIPT_POLL_INTERVAL_MS, 100);
    assert_eq!(CONFIRMATION_TIMEOUT_SECS, 1000);
    assert_eq!(confirmation_step(true, 0, 0), ConfirmationStep::Confirmed);
    assert_eq!(confirmation_step(true, 5000, 0), ConfirmationStep::Confirmed);
    assert_eq!(confirmation_step(false, 0, 0), ConfirmationStep::PollAgain);
    assert_eq!(confirmation_step(false, 999, 999_999_999), ConfirmationStep::PollAgain);
    assert_eq!(confirmation_step(false, 1000, 0), ConfirmationStep::PollAgain);
    assert_eq!(confirmation_step(false, 1000, 1), ConfirmationStep::TimedOut);
    assert_eq!(confirmation_step(false, 1001, 0), ConfirmationStep::TimedOut);
}

#[test]
fn receipt_status() {
    assert!(receipt_succeeded(Some(1)));
    assert!(!receipt_succeeded(Some(0)));
    assert!(!receipt_succeeded(Some(2)));
    assert!(!receipt_succeeded(None));
}

fn looked(found: bool, status: Option<u64>, secs: u64) -> RevertEvent {
    RevertEvent::ReceiptLooked {
        node_ok: true,
        found,
        status,
        elapsed_secs: secs,
        elapsed_nanos: 0,
    }
}

fn started(mode: RevertMode) -> RevertRun {
    let plan = plan_revert(mode, 10, BlockNumber(15), BlockNumber(10)).unwrap();
    RevertRun::start(&plan)
}

#[test]
fn revert_run_all_mode_succeeds() {
    let mut run = started(RevertMode::All);
    assert_eq!(run.stage, RevertStage::Ready);
    assert_eq!(
        run.step(RevertEvent::Begin),
        RevertAction::SignRevert { gas_limit: 275_000 }
    );
    assert_eq!(run.step(RevertEvent::Signed { ok: true }), RevertAction::SendRaw);
    assert_eq!(run.step(RevertEvent::Sent { ok: true }), RevertAction::LookForReceipt);
    assert_eq!(run.step(looked(false, None, 0)), RevertAction::PauseThenLook);
    assert_eq!(run.step(looked(false, None, 3)), RevertAction::PauseThenLook);
    assert_eq!(run.step(looked(true, Some(1), 4)), RevertAction::StoreNextNonce);
    assert!(run.confirmed);
    assert_eq!(
        run.step(RevertEvent::NonceStored { ok: true }),
        RevertAction::CleanStorage { last_correct_block: BlockNumber(10) }
    );
    assert_eq!(run.nonce_warning(), None);
    assert_eq!(run.step(RevertEvent::StorageCleaned { ok: true }), RevertAction::Succeed);
    assert_eq!(run.stage, RevertStage::Finished);
}

#[test]
fn revert_run_contract_mode_stops_after_confirmation() {
    let mut run = started(RevertMode::Contract);
    run.step(RevertEvent::Begin);
    run.step(RevertEvent::Signed { ok: true });
    run.step(RevertEvent::Sent { ok: true });
    run.step(looked(true, Some(1), 1));
    assert_eq!(run.step(RevertEvent::NonceStored { ok: true }), RevertAction::Succeed);
    assert_eq!(run.stage, RevertStage::Finished);
}

#[test]
fn revert_run_storage_mode_is_local() {
    let mut run = started(RevertMode::Storage);
    assert_eq!(
        run.step(RevertEvent::Begin),
        RevertAction::CleanStorage { last_correct_block: BlockNumber(10) }
    );
    assert_eq!(
        run.step(RevertEvent::StorageCleaned { ok: false }),
        RevertAction::Fail { why: RevertFailure::StorageFailed }
    );
}

#[test]
fn revert_run_times_out() {
    let mut run = started(RevertMode::All);
    run.step(RevertEvent::Begin);
    run.step(RevertEvent::Signed { ok: true });
    run.step(RevertEvent::Sent { ok: true });
    assert_eq!(run.step(looked(false, None, 1000)), RevertAction::PauseThenLook);
    assert_eq!(
        run.step(looked(false, None, 1001)),
        RevertAction::Fail { why: RevertFailure::Timeout }
    );
    assert_eq!(run.stage, RevertStage::Finished);
    assert!(!run.confirmed);
}

#[test]
fn revert_run_failed_receipt_never_cleans_storage() {
    let mut run = started(RevertMode::All);
    run.step(RevertEvent::Begin);
    run.step(RevertEvent::Signed { ok: true });
    run.step(RevertEvent::Sent { ok: true });
    assert_eq!(run.step(looked(true, Some(0), 1)), RevertAction::StoreNextNonce);
    assert!(!run.confirmed);
    assert_eq!(
        run.step(RevertEvent::NonceStored { ok: true }),
        RevertAction::ReadFailureReason
    );
    assert_eq!(
        run.step(RevertEvent::FailureRead { ok: true }),
        RevertAction::Fail { why: RevertFailure::ContractRevertFailed }
    );

    let mut run = started(RevertMode::All);
    run.step(RevertEvent::Begin);
    run.step(RevertEvent::Signed { ok: true });
    run.step(RevertEvent::Sent { ok: true });
    run.step(looked(true, None, 1));
    run.step(RevertEvent::NonceStored { ok: true });
    assert_eq!(
        run.step(RevertEvent::FailureRead { ok: false }),
        RevertAction::Fail { why: RevertFailure::FailureReasonUnavailable }
    );
}

#[test]
fn revert_run_nonce_failure_is_reported_not_fatal() {
    let mut run = started(RevertMode::All);
    run.step(RevertEvent::Begin);
    run.step(RevertEvent::Signed { ok: true });
    run.step(RevertEvent::Sent { ok: true });
    run.step(looked(true, Some(1), 1));
    assert_eq!(
        run.step(RevertEvent::NonceStored { ok: false }),
        RevertAction::CleanStorage { last_correct_block: BlockNumber(10) }
    );
    assert_eq!(
        run.nonce_warning(),
        Some("Rootstock tx has been sent but updating operator nonce in storage has failed. You need to update it manually")
    );
    assert_eq!(run.step(RevertEvent::StorageCleaned { ok: true }), RevertAction::Succeed);
}

#[test]
fn revert_run_early_failures() {
    let mut run = started(RevertMode::All);
    run.step(RevertEvent::Begin);
    assert_eq!(
        run.step(RevertEvent::Signed { ok: false }),
        RevertAction::Fail { why: RevertFailure::SignFailed }
    );

    let mut run = started(RevertMode::All);
    run.step(RevertEvent::Begin);
    run.step(RevertEvent::Signed { ok: true });
    assert_eq!(
        run.step(RevertEvent::Sent { ok: false }),
        RevertAction::Fail { why: RevertFailure::SendFailed }
    );

    let mut run = started(RevertMode::All);
    run.step(RevertEvent::Begin);
    run.step(RevertEvent::Signed { ok: true });
    run.step(RevertEvent::Sent { ok: true });
    assert_eq!(
        run.step(RevertEvent::ReceiptLooked {
            node_ok: false,
            found: true,
            status: Some(1),
            elapsed_secs: 0,
            elapsed_nanos: 0
        }),
        RevertAction::Fail { why: RevertFailure::ReceiptQueryFailed }
    );
}

#[test]
fn revert_run_unexpected_event() {
    let mut run = started(RevertMode::All);
    assert_eq!(
        run.step(RevertEvent::StorageCleaned { ok: true }),
        RevertAction::Fail { why: RevertFailure::UnexpectedEvent }
    );
    assert_eq!(run.stage, RevertStage::Finished);
    assert_eq!(
        run.step(RevertEvent::Begin),
        RevertAction::Fail { why: RevertFailure::UnexpectedEvent }
    );
}

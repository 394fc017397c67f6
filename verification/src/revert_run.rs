//! The run of a block revert as a state machine. The caller performs each
//! action (sign, send, look for the receipt, store the nonce, clean the
//! tables) and hands back what happened; the machine decides what comes next.

use vstd::prelude::*;
use crate::primitives::BlockNumber;
use crate::revert::{
    ConfirmationStep, RevertPlan, confirmation_step, past_deadline, receipt_succeeded,
    RECEIPT_STATUS_SUCCESS,
};

verus! {

/// Where a revert stands.
#[derive(Clone, Copy, Debug, PartialEq, Eq, Structural)]
pub enum RevertStage {
    /// Nothing was done yet.
    Ready,
    /// The revert call is being encoded and signed.
    Signing,
    /// The signed transaction is being sent.
    Sending,
    /// The receipt is awaited.
    Confirming,
    /// The operator's next nonce is being fetched and stored.
    StoringNonce,
    /// The contract's failure reason is being read.
    ReadingFailure,
    /// The local tables are being cleaned.
    CleaningStorage,
    /// The revert has ended.
    Finished,
}

/// Why a revert ended without success.
#[derive(Clone, Copy, Debug, PartialEq, Eq, Structural)]
pub enum RevertFailure {
    /// The revert call could not be signed.
    SignFailed,
    /// The signed transaction could not be sent.
    SendFailed,
    /// The L1 node failed to answer a receipt query.
    ReceiptQueryFailed,
    /// No receipt arrived before the deadline.
    Timeout,
    /// The receipt reports a failed transaction; the failure reason was read.
    ContractRevertFailed,
    /// The receipt reports a failed transaction, and its reason could not be read.
    FailureReasonUnavailable,
    /// The database transaction that cleans the tables failed.
    StorageFailed,
    /// An event arrived that the current stage does not wait for.
    UnexpectedEvent,
}

/// What the caller reports back to the machine.
#[derive(Clone, Copy, Debug, PartialEq, Eq, Structural)]
pub enum RevertEvent {
    /// The run starts.
    Begin,
    /// Signing ended.
    Signed { ok: bool },
    /// Sending ended.
    Sent { ok: bool },
    /// One look for the receipt ended. `node_ok` is false where the node
    /// failed to answer; `status` is the receipt's status where one was found;
    /// the elapsed time counts from the moment the transaction was sent.
    ReceiptLooked {
        node_ok: bool,
        found: bool,
        status: Option<u64>,
        elapsed_secs: u64,
        elapsed_nanos: u32,
    },
    /// Fetching and storing the operator's next nonce ended.
    NonceStored { ok: bool },
    /// Reading the failure reason ended.
    FailureRead { ok: bool },
    /// The database transaction that cleans the tables ended.
    StorageCleaned { ok: bool },
}

/// What the caller is to do next.
#[derive(Clone, Copy, Debug, PartialEq, Eq, Structural)]
pub enum RevertAction {
    /// Encode the revert call for the planned blocks and sign it with this gas limit.
    SignRevert { gas_limit: u64 },
    /// Send the signed transaction.
    SendRaw,
    /// Look for the receipt now.
    LookForReceipt,
    /// Pause for the poll interval, then look for the receipt.
    PauseThenLook,
    /// Fetch the operator's next nonce and store it.
    StoreNextNonce,
    /// Read the failure reason of the transaction from the contract.
    ReadFailureReason,
    /// Clean the local tables above this block, in one database transaction.
    CleanStorage { last_correct_block: BlockNumber },
    /// The revert is done.
    Succeed,
    /// The revert is abandoned.
    Fail { why: RevertFailure },
}

/// The state of one revert.
#[derive(Clone, Copy, Debug, PartialEq, Eq, Structural)]
pub struct RevertRun {
    /// Whether the run reverts on the contract.
    pub contract: bool,
    /// Whether the run cleans the local tables.
    pub storage: bool,
    /// The block after which everything is reverted.
    pub last_correct_block: BlockNumber,
    /// The gas limit of the revert call.
    pub gas_limit: u64,
    /// Where the run stands.
    pub stage: RevertStage,
    /// Whether a receipt with the success status was seen.
    pub confirmed: bool,
    /// Whether storing the operator's nonce failed, so that the stored nonce
    /// has to be corrected by hand.
    pub nonce_stale: bool,
}

/// The text that tells the operator to correct the stored nonce by hand.
pub open spec fn nonce_warning_text() -> Seq<char> {
    "Rootstock tx has been sent but updating operator nonce in storage has failed. You need to update it manually"@
}

/// The run after it is abandoned.
pub open spec fn abandoned(run: RevertRun) -> RevertRun {
    RevertRun { stage: RevertStage::Finished, ..run }
}

/// The run at `stage`.
pub open spec fn moved_to(run: RevertRun, stage: RevertStage) -> RevertRun {
    RevertRun { stage, ..run }
}

/// Next state and action where the contract stage is over with success, or
/// was never asked for.
pub open spec fn after_contract(run: RevertRun) -> (RevertRun, RevertAction) {
    if run.storage {
        (
            moved_to(run, RevertStage::CleaningStorage),
            RevertAction::CleanStorage { last_correct_block: run.last_correct_block },
        )
    } else {
        (moved_to(run, RevertStage::Finished), RevertAction::Succeed)
    }
}

/// Next state and action for `event` arriving in state `run`.
pub open spec fn transition(run: RevertRun, event: RevertEvent) -> (RevertRun, RevertAction) {
    let unexpected = (abandoned(run), RevertAction::Fail { why: RevertFailure::UnexpectedEvent });
    match (run.stage, event) {
        (RevertStage::Ready, RevertEvent::Begin) => {
            if run.contract {
                (
                    moved_to(run, RevertStage::Signing),
                    RevertAction::SignRevert { gas_limit: run.gas_limit },
                )
            } else {
                after_contract(run)
            }
        },
        (RevertStage::Signing, RevertEvent::Signed { ok }) => {
            if ok {
                (moved_to(run, RevertStage::Sending), RevertAction::SendRaw)
            } else {
                (abandoned(run), RevertAction::Fail { why: RevertFailure::SignFailed })
            }
        },
        (RevertStage::Sending, RevertEvent::Sent { ok }) => {
            if ok {
                (moved_to(run, RevertStage::Confirming), RevertAction::LookForReceipt)
            } else {
                (abandoned(run), RevertAction::Fail { why: RevertFailure::SendFailed })
            }
        },
        (
            RevertStage::Confirming,
            RevertEvent::ReceiptLooked { node_ok, found, status, elapsed_secs, elapsed_nanos },
        ) => {
            if !node_ok {
                (abandoned(run), RevertAction::Fail { why: RevertFailure::ReceiptQueryFailed })
            } else if found {
                (
                    RevertRun {
                        stage: RevertStage::StoringNonce,
                        confirmed: status == Some(RECEIPT_STATUS_SUCCESS),
                        ..run
                    },
                    RevertAction::StoreNextNonce,
                )
            } else if past_deadline(elapsed_secs, elapsed_nanos) {
                (abandoned(run), RevertAction::Fail { why: RevertFailure::Timeout })
            } else {
                (run, RevertAction::PauseThenLook)
            }
        },
        (RevertStage::StoringNonce, RevertEvent::NonceStored { ok }) => {
            let noted = RevertRun { nonce_stale: !ok, ..run };
            if run.confirmed {
                after_contract(noted)
            } else {
                (moved_to(noted, RevertStage::ReadingFailure), RevertAction::ReadFailureReason)
            }
        },
        (RevertStage::ReadingFailure, RevertEvent::FailureRead { ok }) => {
            if ok {
                (abandoned(run), RevertAction::Fail { why: RevertFailure::ContractRevertFailed })
            } else {
                (
                    abandoned(run),
                    RevertAction::Fail { why: RevertFailure::FailureReasonUnavailable },
                )
            }
        },
        (RevertStage::CleaningStorage, RevertEvent::StorageCleaned { ok }) => {
            if ok {
                (moved_to(run, RevertStage::Finished), RevertAction::Succeed)
            } else {
                (abandoned(run), RevertAction::Fail { why: RevertFailure::StorageFailed })
            }
        },
        _ => unexpected,
    }
}

/// Whether `stage` is one of the stages of the call to the contract.
pub open spec fn in_contract_stage(stage: RevertStage) -> bool {
    stage == RevertStage::Signing || stage == RevertStage::Sending || stage
        == RevertStage::Confirming || stage == RevertStage::StoringNonce || stage
        == RevertStage::ReadingFailure
}

/// What holds of every state that a run can reach: the tables are cleaned, and
/// a run with a contract stage ends well, only after a receipt with the
/// success status was seen.
pub open spec fn run_is_sound(run: RevertRun) -> bool {
    &&& run.stage == RevertStage::CleaningStorage ==> run.storage && (run.contract
        ==> run.confirmed)
    &&& run.confirmed ==> run.contract && run.stage != RevertStage::Ready && run.stage
        != RevertStage::Signing && run.stage != RevertStage::Sending
    &&& run.stage == RevertStage::ReadingFailure ==> !run.confirmed
    &&& in_contract_stage(run.stage) ==> run.contract
}

impl RevertRun {
    /// A run that carries out `plan` and has not started.
    pub fn start(plan: &RevertPlan) -> (run: RevertRun)
        ensures
            run.contract == plan.contract is Some,
            run.storage == plan.storage,
            run.last_correct_block == plan.last_correct_block,
            plan.contract matches Some(call) ==> run.gas_limit == call.gas_limit,
            plan.contract is None ==> run.gas_limit == 0,
            run.stage == RevertStage::Ready,
            !run.confirmed,
            !run.nonce_stale,
            run_is_sound(run),
    {
        let (contract, gas_limit): (bool, u64) = match &plan.contract {
            Some(call) => (true, call.gas_limit),
            None => (false, 0),
        };
        RevertRun {
            contract,
            storage: plan.storage,
            last_correct_block: plan.last_correct_block,
            gas_limit,
            stage: RevertStage::Ready,
            confirmed: false,
            nonce_stale: false,
        }
    }

    /// Takes in what happened and says what to do next.
    pub fn step(&mut self, event: RevertEvent) -> (action: RevertAction)
        ensures
            (*final(self), action) == transition(*old(self), event),
    {
        let run: RevertRun = *self;
        let mut next: RevertRun = run;
        let action: RevertAction = match (run.stage, event) {
            (RevertStage::Ready, RevertEvent::Begin) => {
                if run.contract {
                    next.stage = RevertStage::Signing;
                    RevertAction::SignRevert { gas_limit: run.gas_limit }
                } else {
                    Self::leave_contract_stage(&mut next)
                }
            },
            (RevertStage::Signing, RevertEvent::Signed { ok }) => {
                if ok {
                    next.stage = RevertStage::Sending;
                    RevertAction::SendRaw
                } else {
                    next.stage = RevertStage::Finished;
                    RevertAction::Fail { why: RevertFailure::SignFailed }
                }
            },
            (RevertStage::Sending, RevertEvent::Sent { ok }) => {
                if ok {
                    next.stage = RevertStage::Confirming;
                    RevertAction::LookForReceipt
                } else {
                    next.stage = RevertStage::Finished;
                    RevertAction::Fail { why: RevertFailure::SendFailed }
                }
            },
            (
                RevertStage::Confirming,
                RevertEvent::ReceiptLooked { node_ok, found, status, elapsed_secs, elapsed_nanos },
            ) => {
                if !node_ok {
                    next.stage = RevertStage::Finished;
                    RevertAction::Fail { why: RevertFailure::ReceiptQueryFailed }
                } else {
                    match confirmation_step(found, elapsed_secs, elapsed_nanos) {
                        ConfirmationStep::Confirmed => {
                            next.stage = RevertStage::StoringNonce;
                            next.confirmed = receipt_succeeded(status);
                            RevertAction::StoreNextNonce
                        },
                        ConfirmationStep::TimedOut => {
                            next.stage = RevertStage::Finished;
                            RevertAction::Fail { why: RevertFailure::Timeout }
                        },
                        ConfirmationStep::PollAgain => RevertAction::PauseThenLook,
                    }
                }
            },
            (RevertStage::StoringNonce, RevertEvent::NonceStored { ok }) => {
                next.nonce_stale = !ok;
                if run.confirmed {
                    Self::leave_contract_stage(&mut next)
                } else {
                    next.stage = RevertStage::ReadingFailure;
                    RevertAction::ReadFailureReason
                }
            },
            (RevertStage::ReadingFailure, RevertEvent::FailureRead { ok }) => {
                next.stage = RevertStage::Finished;
                if ok {
                    RevertAction::Fail { why: RevertFailure::ContractRevertFailed }
                } else {
                    RevertAction::Fail { why: RevertFailure::FailureReasonUnavailable }
                }
            },
            (RevertStage::CleaningStorage, RevertEvent::StorageCleaned { ok }) => {
                next.stage = RevertStage::Finished;
                if ok {
                    RevertAction::Succeed
                } else {
                    RevertAction::Fail { why: RevertFailure::StorageFailed }
                }
            },
            _ => {
                next.stage = RevertStage::Finished;
                RevertAction::Fail { why: RevertFailure::UnexpectedEvent }
            },
        };
        *self = next;
        action
    }

    fn leave_contract_stage(run: &mut RevertRun) -> (action: RevertAction)
        ensures
            (*final(run), action) == after_contract(*old(run)),
    {
        if run.storage {
            run.stage = RevertStage::CleaningStorage;
            RevertAction::CleanStorage { last_correct_block: run.last_correct_block }
        } else {
            run.stage = RevertStage::Finished;
            RevertAction::Succeed
        }
    }

    /// The warning owed to the operator where storing the nonce failed.
    pub fn nonce_warning(&self) -> (warning: Option<&'static str>)
        ensures
            self.nonce_stale ==> (warning matches Some(text) && text@ == nonce_warning_text()),
            !self.nonce_stale ==> warning is None,
    {
        if self.nonce_stale {
            Some(
                "Rootstock tx has been sent but updating operator nonce in storage has failed. You need to update it manually",
            )
        } else {
            None
        }
    }
}

/// A run that has not started is sound, and every transition keeps a run sound.
pub proof fn lemma_run_stays_sound(run: RevertRun, event: RevertEvent)
    requires
        run_is_sound(run),
    ensures
        run_is_sound(transition(run, event).0),
{
}

/// The tables are cleaned only on request, and where the run has a contract
/// stage only after a receipt with the success status: the L1 transaction
/// comes strictly before the storage transaction.
pub proof fn lemma_storage_follows_contract(run: RevertRun, event: RevertEvent)
    requires
        run_is_sound(run),
        transition(run, event).1 is CleanStorage,
    ensures
        run.storage,
        run.contract ==> run.confirmed && run.stage == RevertStage::StoringNonce,
        !run.contract ==> run.stage == RevertStage::Ready,
        transition(run, event).1 == (RevertAction::CleanStorage {
            last_correct_block: run.last_correct_block,
        }),
{
}

/// A run with a contract stage succeeds only after a receipt with the success
/// status was seen.
pub proof fn lemma_success_needs_confirmation(run: RevertRun, event: RevertEvent)
    requires
        run_is_sound(run),
        run.contract,
        transition(run, event).1 is Succeed,
    ensures
        run.confirmed,
{
}

/// How far a stage is along the run.
pub open spec fn stage_rank(stage: RevertStage) -> nat {
    match stage {
        RevertStage::Ready => 0,
        RevertStage::Signing => 1,
        RevertStage::Sending => 2,
        RevertStage::Confirming => 3,
        RevertStage::StoringNonce => 4,
        RevertStage::ReadingFailure => 5,
        RevertStage::CleaningStorage => 6,
        RevertStage::Finished => 7,
    }
}

/// A run never goes back: every transition moves it to a later stage, but
/// for the wait for the receipt, which holds the stage while it polls, and
/// for an event after the end, which leaves the run ended. A run is ended
/// exactly when the caller is told that it succeeded or failed.
pub proof fn lemma_run_advances(run: RevertRun, event: RevertEvent)
    ensures
        stage_rank(transition(run, event).0.stage) > stage_rank(run.stage) || transition(
            run,
            event,
        ).1 == RevertAction::PauseThenLook || run.stage == RevertStage::Finished,
        transition(run, event).1 == RevertAction::PauseThenLook ==> transition(run, event).0 == run,
        transition(run, event).0.stage == RevertStage::Finished <==> transition(run, event).1
            is Succeed || transition(run, event).1 is Fail,
{
}

/// A failure to store the operator's nonce does not abandon the run: the next
/// action is the same as after a stored nonce, and the run remembers the
/// failure for the operator.
pub proof fn lemma_nonce_failure_is_not_fatal(run: RevertRun)
    requires
        run.stage == RevertStage::StoringNonce,
    ensures
        transition(run, RevertEvent::NonceStored { ok: false }).1 == transition(
            run,
            RevertEvent::NonceStored { ok: true },
        ).1,
        transition(run, RevertEvent::NonceStored { ok: false }).0.nonce_stale,
        !transition(run, RevertEvent::NonceStored { ok: true }).0.nonce_stale,
{
}

} // verus!

//! Verified core of a rollup operator's state-restoration and rollback tooling.
//!
//! The library holds the rules and decisions: how L1 windows are scanned, which
//! block events are ready to drive the account tree, how the restore driver
//! resumes from a checkpoint, and how a block revert is planned. Performing the
//! chain and database calls is left to the caller.

pub mod account;
pub mod checkpoint;
pub mod data_restore_driver;
pub mod error;
pub mod events_state;
pub mod genesis;
pub mod primitives;
pub mod revert;
pub mod revert_run;
pub mod rollup_ops;
pub mod text;
pub mod ticker;
pub mod tokens;
pub mod tree_state;

//! Startup recovery and execution-context derivation for a rollup sequencer's
//! state keeper.
//!
//! After a restart, the sequencer must find out whether transactions were
//! executed but never sealed into a finalized batch, and if so reconstruct
//! exactly the execution context and the ordered transaction list needed to
//! resume deterministic re-execution. This crate holds that logic:
//!
//! - [`poll`]: bounded-retry arithmetic for wait loops;
//! - [`types`]: the value types exchanged with the storage gateway and the VM;
//! - [`batch_params`]: derivation of the immutable per-batch execution context;
//! - [`storage`]: the storage-gateway capability set the recovery consumes;
//! - [`recovery`]: detection and reconstruction of a pending (unsealed) batch.

pub mod batch_params;
pub mod poll;
pub mod recovery;
pub mod storage;
pub mod types;

//! Deterministic execution core of a bytecode virtual machine.
//!
//! The library runs bytecode transactions (ordinary user transactions and the
//! special block-metadata system transaction) against a versioned,
//! account-keyed store, under a strict gas budget, producing a transaction
//! output that is either kept or discarded atomically.

pub mod bytes;
pub mod types;
pub mod status;
pub mod gas;
pub mod natives;
pub mod data_cache;
pub mod module_cache;
pub mod executor;
pub mod block_metadata;
pub mod system_txn;

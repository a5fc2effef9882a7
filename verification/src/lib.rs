//! Transaction-application core of a blockchain node.
//!
//! Given the ordered transactions of one entry, the pipeline pre-charges
//! each signer, takes the first action of every transaction through the
//! dispatcher, and accumulates a forward mutation log, a reverse mutation
//! log and one result record per transaction. A failed action costs its
//! transaction its business writes and nothing else.
//!
//! The crate decides and keeps the books; it performs no input or output.
//! The contract state is a value (`store::KvStore`), and whatever lies
//! outside (the cost schedule, key validation, the built-in handlers, the
//! virtual machine) is asked for step by step (`pipeline::apply_entry`).

pub mod bytes;
pub mod context;
pub mod decimal;
pub mod exit;
pub mod keys;
pub mod kv;
pub mod laws;
pub mod mutation;
pub mod pipeline;
pub mod registry;
pub mod store;
pub mod vm;

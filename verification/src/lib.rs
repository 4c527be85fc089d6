//! Relays recorded transfers from a source ledger to a destination ledger.
//!
//! The crate holds the byte layouts of the accounts involved, the derivation
//! of per-counter descriptor addresses, the assembly of the relay
//! transaction and the reconciliation state machine that decides, event by
//! event, what the relay does next. Reading accounts, submitting
//! transactions and sleeping are left to the caller, which hands the
//! outcome of each action back as an event.

pub mod address;
pub mod codec;
pub mod config;
pub mod pda;
pub mod transaction;
pub mod engine;
pub mod batch;
pub mod relayer;

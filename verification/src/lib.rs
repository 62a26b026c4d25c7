//! An in-memory sandbox for a smart-contract ledger: it stores ledger
//! entries, validates signed transactions against that state, orchestrates
//! contract execution through the host environment, applies the resulting
//! state diffs, and records outcomes for later lookup.

pub mod codec;
pub mod crypto;
pub mod engine;
pub mod entry;
pub mod envelope;
pub mod executor;
pub mod ledger_info;
pub mod memory;
pub mod model;
pub mod network_config;
pub mod sandbox;
pub mod tx_storage;
pub mod utils;
pub mod validation;

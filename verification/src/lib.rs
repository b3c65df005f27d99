//! Collateralized lending against tokenized real-world assets.
//!
//! The crate holds the parts of the system that must be bit-exact on both
//! sides of the execution boundary: the versioned binary record codec, the
//! deterministic address derivation scheme, the asset/loan state machine
//! with its risk-tiered loan-to-value policy, and the builders for outbound
//! operation payloads.

pub mod address;
pub mod api;
pub mod codec;
pub mod error;
pub mod instruction;
pub mod ledger;
pub mod policy;
pub mod state;
pub mod workflow;

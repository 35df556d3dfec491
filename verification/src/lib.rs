//! Token-weighted governance proposal and voting engine.
//!
//! The engine manages the full lifecycle of governance proposals: creation,
//! time-windowed weighted voting, tallying against quorum and majority rules,
//! and authorized lifecycle transitions (cancel, execute). All state lives in
//! an in-memory [`engine::GovernanceState`]; the host supplies the caller
//! identity and the current time as plain values.

pub mod types;
pub mod tally;
pub mod ledger;
pub mod engine;

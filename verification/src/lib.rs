//! A verified model of a ledger-to-edge-server relay core.
//!
//! The crate covers the logic that decides and validates, kept apart from the
//! host that performs I/O:
//!
//! - [`connection`] — the singleton connection slot, its lifecycle handlers
//!   and their event log;
//! - [`strategy`] — deterministic, height-driven selection of a submission
//!   strategy for the per-cycle relay;
//! - [`validator`] — the admission rule that lets the relay's unsigned
//!   transactions into the transaction pool;
//! - [`submitter`] — planning one cycle's transaction submissions and
//!   aggregating their per-attempt results;
//! - [`scheduler`] — the per-cycle entry point tying the above together.

pub mod connection;
pub mod scheduler;
pub mod strategy;
pub mod submitter;
pub mod validator;

//! Simulation orchestration and telemetry framework.
//!
//! A harness of this kind runs an ordered list of independent action
//! capabilities against a host and records one terminal outcome per
//! invocation in an append-only telemetry ledger.  This crate holds the
//! framework itself: the shared run configuration, the capability
//! contract, the ledger and its newline-delimited JSON encoding, the
//! fan-out/fan-in probe-storm bookkeeping, and the decision logic of the
//! individual action modules.  The host-specific effects (process
//! creation, registry edits, file drops) live outside the library and
//! hand plain values in and out.

pub mod actions;
pub mod capability;
pub mod clock;
pub mod config;
pub mod json;
pub mod ledger;
pub mod record;
pub mod runner;
pub mod storm;
pub mod telemetry;
pub mod text;

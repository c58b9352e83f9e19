//! Simulation engine for calls against a forked chain snapshot.
//!
//! The library holds the verified core: execution-context management,
//! account-override merge semantics, call orchestration, and trace
//! decoding/rendering. The surrounding service (HTTP routing, the forked
//! execution backend, environment loading) performs the I/O and feeds this
//! core plain values.

pub mod config;
pub mod evm;
pub mod overrides;
pub mod trace;
pub mod types;

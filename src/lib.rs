//! Startup and lifecycle logic of a blockchain node: the bootstrap state
//! machine, the genesis watch, the liveness supervisor, the monitor worker
//! and the node configuration, each with a verified contract.

pub mod address;
pub mod chain;
pub mod config;
pub mod genesis_watch;
pub mod identity;
pub mod monitor;
pub mod orchestrator;
pub mod report;
pub mod supervisor;
pub mod text;
pub mod tracer;
pub mod version;

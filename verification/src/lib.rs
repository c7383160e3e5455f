//! A verified core for a Bluetooth Low Energy heart-rate client.
//!
//! The crate models the pieces of a heart-rate notification pipeline that
//! carry real correctness constraints: decoding measurement payloads,
//! selecting a device from scan results, the connection lifecycle state
//! machine, and the orchestration of a whole run. Radio I/O itself is left
//! to an embedding application, which drives these state machines.

pub mod connection;
pub mod decoder;
pub mod orchestrator;
pub mod scanner;
pub mod uuids;

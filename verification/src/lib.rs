//! Hardware abstraction core of a Bitcoin mining controller.
//!
//! Turns proof-of-work jobs into hardware-ready work items, correlates raw
//! nonce solutions found by hashing hardware back to the job and midstate
//! that produced them, aggregates per-chain hardware statistics, and lets
//! any component request an orderly shutdown with a reason.

pub mod error;
pub mod hw;
pub mod job;
pub mod shutdown;
pub mod solution;
pub mod stats;
pub mod work;

//! snare: a webhook daemon core, verified with Verus.
//!
//! The library holds the admission-to-execution pipeline of a webhook
//! daemon: signature checking for inbound requests, a FIFO job queue with
//! an eligibility-aware pop, a running-process table with single-flight
//! per repository, and the scheduler's state transitions. The surrounding
//! binary (network listener, OS signals, process spawning) drives these
//! functions and performs the I/O they decide on.

pub mod admission;
pub mod config;
pub mod daemon;
pub mod hex;
pub mod job;
pub mod queue;
pub mod running;
pub mod sig;
pub mod startup;

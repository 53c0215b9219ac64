//! Job tracking core for asynchronous print submission.
//!
//! The library models a registry of print jobs: identifiers are issued from a
//! monotone counter seeded above zero, each accepted submission inserts a
//! `PENDING` record, the job's worker drives the record through `PROCESSING`
//! to a terminal state, and a retention sweep evicts old terminal records. A
//! configuration-selected simulation policy replaces printer resolution and
//! file checks with deterministic rules, so the whole state machine can be
//! exercised without a printing subsystem.
//!
//! The embedding runtime supplies everything the outside world decides: clock
//! readings, the simulation toggle's value, and what the printing subsystem
//! and the filesystem reported. Every operation of the registry is specified
//! over those plain values; `laws` states the properties that hold of every
//! run.

pub mod errors;
pub mod interface;
pub mod job;
pub mod laws;
pub mod media;
pub mod naming;
pub mod options;
pub mod policy;
pub mod registry;
pub mod state;
pub mod text;

use vstd::prelude::*;

verus! {

/// First job identifier issued by a fresh registry.
pub const JOB_ID_SEED: u64 = 1000;

} // verus!

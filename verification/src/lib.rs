//! A threshold-authorization engine: a league (a fixed group of participants
//! with an approval threshold) collectively controls the right to run external
//! actions. A transaction (an action proposal) executes only after a quorum of
//! participants has approved it.
//!
//! The crate holds the approval state machine only: membership management,
//! proposal creation, vote collection with early termination, and the handoff
//! to a delegated execution step. Storage, transport and the actual execution
//! of an approved action belong to the surrounding system.

pub mod errors;
pub mod league;
pub mod transaction;
pub mod voting;
pub mod execution;

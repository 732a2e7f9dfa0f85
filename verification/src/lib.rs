//! Round-robin leader election and block production for a fixed validator roster.
//!
//! Validators take turns by chain height. The scheduler decides whose turn it
//! is, the producer assembles a candidate block stage by stage, and the
//! consensus loop ties a tick to at most one production and import attempt.
//! Every collaborator (chain state, executor, importer, clock) stays outside:
//! the machines here say what to ask next and what to make of each answer.

pub mod block;
pub mod consensus;
pub mod producer;
pub mod report;
pub mod roster;
pub mod scheduler;

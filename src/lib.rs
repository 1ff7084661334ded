//! Batch synchronisation of remote repositories to local working copies.
//!
//! The library holds the decisions: how a repository is named, which
//! repositories a batch keeps, whether each one is cloned or fetched, how many
//! jobs may run at once and how completions are counted. Running the version
//! control client and reading the repository listing are left to the caller.
use vstd::prelude::*;

pub mod batch;
pub mod filter;
pub mod naming;
pub mod planner;
pub mod progress;
pub mod repo;
pub mod scheduler;
pub mod types;

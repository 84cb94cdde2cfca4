//! A minimal continuous-integration orchestrator: it accepts a push
//! notification, updates a local working copy of the affected repository,
//! runs a configured sequence of build tasks fail-fast under a process-wide
//! single-flight lock, and reports a commit status back to the host.
//!
//! The build-coordination and pipeline-execution engine lives here, fully
//! verified; process spawning, HTTP and the filesystem are driven by an
//! unverified shell around this crate.

pub mod coordinator;
pub mod intake;
pub mod laws;
pub mod logger;
pub mod report;
pub mod structs;
pub mod update;

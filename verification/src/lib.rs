//! A convenience wrapper around a version-control tool's habitual workflow:
//! initialize-and-link, add-commit-push, pull, preference setup, and
//! self-update, each reduced to a single command.
//!
//! The library builds every external invocation as a value: which program to
//! run, with which argument list, and how (waiting, capturing output, or
//! detached). Argument assembly — in particular the shared verbosity/quiet
//! flag rule — and the workflow step sequences are specified and verified
//! here; actually spawning the planned processes is left to the binary that
//! interprets the plans.

pub mod branch;
pub mod invocation;
pub mod mode;
pub mod steps;
pub mod workflow;

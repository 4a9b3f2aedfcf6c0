//! Batch file renaming by regular-expression search and replace.
//!
//! The library covers the three pure stages of the tool: building a matcher
//! from user options (`config`), computing the full set of proposed renames
//! and rejecting name collisions before any filesystem change (`planner`),
//! and deciding each execution step under the dry-run, overwrite-prompt and
//! abort policies (`executor`). All filesystem and terminal work is left to
//! the binary around the library.

pub mod config;
pub mod executor;
pub mod planner;


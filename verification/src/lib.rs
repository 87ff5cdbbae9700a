//! Verified core of a diagnostic-log report generator.
//!
//! The library accumulates compilation artifacts extracted from structured
//! log records, groups them for display, discovers per-rank log files of a
//! distributed job, plans the multi-rank orchestration, and makes the
//! path-handling decisions of a sandboxed static file server.  All logic is
//! specified and proved; file and network I/O stay outside, in the thin
//! application layer that calls into this crate.

pub mod text;
pub mod types;
pub mod state;
pub mod groups;
pub mod json;
pub mod parsers;
pub mod ranks;
pub mod server;
pub mod summary;
pub mod cli;

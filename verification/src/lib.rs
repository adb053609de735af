//! Readiness-polling supervisor library.
//!
//! The crate models a startup gate: a set of declared targets (TCP endpoints
//! or local socket paths) is probed until every one of them accepts a
//! connection, and only then is control handed to a downstream command.
//!
//! All decisions are made here and are verified: turning raw command-line
//! values into well-formed targets (`cli`, `loader`), planning how a host is
//! resolved (`resolver`), the polling state machine of a single probe
//! (`probe`), the all-or-nothing aggregation of probe outcomes
//! (`supervisor`), and the split of the downstream command line (`handoff`).
//! The surrounding binary performs the actual network calls, sleeps and
//! process replacement, and feeds their results back into these state
//! machines as plain events.

pub mod cli;
pub mod errors;
pub mod handoff;
pub mod loader;
pub mod probe;
pub mod resolver;
pub mod supervisor;
pub mod target;

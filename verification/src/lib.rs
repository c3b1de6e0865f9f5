//! Decision core of a sandbox runner for untrusted source snippets.
//!
//! The crate resolves a language to an image and a command, derives the
//! isolation settings of a sandbox from its resource limits, demultiplexes
//! the sandbox's output, and drives the lifecycle of one sandbox as a state
//! machine whose every transition is specified. The caller performs the
//! requests against the orchestration daemon and feeds the answers back.

pub mod config;
pub mod container;
pub mod error;
pub mod language;
pub mod lifecycle;
pub mod limits;
pub mod monitor;
pub mod output;
pub mod trace;

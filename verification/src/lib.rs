//! Core logic of an autonomous issue-maintenance agent.
//!
//! The library holds the decision logic of the agent loop: the closed set of
//! actions the model may request, the wire format those actions travel in,
//! parsing of the model's decision payload, the bounded context the agent
//! keeps between cycles, incremental synchronisation with the issue tracker,
//! merge classification for the mirrored repository, and the bounded
//! observability logs. All I/O (network, git, clock, process) lives in the
//! surrounding application, which feeds plain values into these functions and
//! carries their decisions out.

pub mod actions;
pub mod clock;
pub mod codec;
pub mod config;
pub mod context;
pub mod decision;
pub mod dispatch;
pub mod gitsync;
pub mod monitor;
pub mod textutil;
pub mod tracker;

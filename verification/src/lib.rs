//! Decision logic of a process-level runtime tuning agent.
//!
//! The agent waits until the window of its target is there, then asks the
//! operating system for a fixed list of adjustments to the process it lives
//! in. This library decides; a driver outside it carries the requests out
//! and reports back what came of each.

pub mod flags;
pub mod logline;
pub mod port;
pub mod config;
pub mod steps;
pub mod pipeline;
pub mod acquire;
pub mod agent;
pub mod text;
pub mod settings;

//! Galatea's engine: tasks, stacks of tasks, and the batches that install,
//! uninstall, reset and remediate them.
//!
//! The engine decides and the host acts. An operation is a run: each step
//! either asks the host for one piece of work (a download, a process, a
//! state file) or ends the run, and the host's reply drives the next step.
//! What a step does is a function of the unit, the configuration, the run
//! and the reply, and the contracts state that function exactly.
//!
//! - [`task`]: a task and the steps of its lifecycle.
//! - [`stack`]: a stack, its status, and the run over its tasks.
//! - [`batch`]: one phase over a selection of units, with its tally.
//! - [`engine`]: requests, replies and the stages of a run.
//! - [`executor`]: which file to run, how to invoke it, what its exit means.
//! - [`downloader`]: what to download where, and how to unpack it.
//! - [`definitions`], [`yaml`]: tasks and stacks read from YAML.
//! - [`config`], [`selection`], [`display`], [`text`], [`error`]: the rest.

pub mod batch;
pub mod config;
pub mod definitions;
pub mod display;
pub mod downloader;
pub mod engine;
pub mod error;
pub mod executor;
pub mod selection;
pub mod stack;
pub mod task;
pub mod text;
pub mod yaml;

//! A manager for a personal directory of shell scripts.
//!
//! The crate holds the decisions of the tool: how a description is read out
//! of the head of a script, how the editor command line is put together, how
//! the outcome of a launch maps to a message and an exit code, and how the
//! command line selects an action. Reading files, spawning processes and
//! printing are left to the caller, which hands in plain values.

pub mod command;
pub mod description;
pub mod editor;
pub mod listing;
pub mod pattern;
pub mod report;
pub mod runner;
pub mod store;
pub mod text;

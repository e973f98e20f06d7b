//! The self-installation logic of the `blue` command-line tool.
//!
//! Installing means three things, in this order: work out the directory
//! that the platform prescribes for the executable, copy the running
//! executable there, and make that directory part of the user's `PATH`.
//! This crate holds every decision of that process as verified functions
//! on plain values. Touching the file system, spawning a process and
//! printing are left to the caller, which is told step by step what to do
//! and reports back what happened.

pub mod text;
pub mod platform;
pub mod error;
pub mod profile;
pub mod target;
pub mod binary;
pub mod registrar;
pub mod environment;
pub mod commands;
pub mod config;

//! The commands of the tool whose logic lives in this crate.

pub mod bootstrap;

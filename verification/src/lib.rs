//! Configuration resolution and command dispatch for a command-line client
//! that talks to a remote identity agent over HTTP.
//!
//! The crate decides; it performs no I/O. A caller reads the command line,
//! the environment and the configuration file, hands what it read to the
//! functions here as plain values, and carries out the actions they return.

pub mod error;
pub mod utils;
pub mod modules;
pub mod agent;
pub mod cli;

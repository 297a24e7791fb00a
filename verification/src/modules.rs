//! The commands that work without an agent.

pub mod configuration;

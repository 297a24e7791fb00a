//! The commands that talk to the agent, and how an invocation reaches them.

pub mod register;
pub mod registry;
pub mod resolve;

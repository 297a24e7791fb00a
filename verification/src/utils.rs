//! Text handling and the configuration file.

pub mod config;
pub mod format;
pub mod laws;
pub mod text;

[package]
name = "aries-cli"
version = "0.1.0"
edition = "2021"
publish = false

[dependencies]
async-trait = "0.1"
clap = { version = "3", features = ["derive"] }

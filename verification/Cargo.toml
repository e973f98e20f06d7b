[package]
name = "blue_cli"
version = "0.0.1"
edition = "2021"
publish = false

[dependencies]
clap = { version = "4", features = ["derive"] }
home = "0.5"
toml = "0.8"
tracing = "0.1"

[package]
name = "cpm"
version = "0.1.0"
edition = "2021"
publish = false

[dependencies]
clap = "4"
serde_json = "1"
toml = "0.8"
tracing = "0.1"

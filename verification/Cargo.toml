[package]
name = "pyroscope_cli"
version = "0.1.0"
edition = "2021"
publish = false

[dependencies]
clap = "3"
config = "0.13"
log = { version = "0.4", features = ["std"] }
pyroscope = "0.5"
serde_json = "1"

[package]
name = "igniter"
version = "0.1.0"
edition = "2021"
publish = false

[dependencies]
clap = "2"
daemonize = "*"
dirs = "*"
nix = { version = "*", features = ["signal", "process"] }
serde = { version = "1", features = ["derive"] }
serde_json = "1"
toml = "*"

[package]
name = "vagent"
version = "0.1.0"
edition = "2021"
publish = false

[dependencies]
nix = { version = "*", features = ["signal", "fs"] }
dns-lookup = "*"
tokio = { version = "*", features = ["process", "rt", "sync", "fs", "signal"] }
anyhow = "*"

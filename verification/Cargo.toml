[package]
name = "tache"
version = "0.1.0"
edition = "2021"
publish = false

[dependencies]
clap = "*"
futures = "*"
log = "*"
tokio = { version = "*", features = ["rt", "rt-multi-thread", "signal"] }

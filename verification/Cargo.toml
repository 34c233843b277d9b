[package]
name = "live_bot"
version = "0.1.0"
edition = "2021"
publish = false

[dependencies]
anyhow = "1"
chrono = "0.4"
rand = "0.8"
thiserror = "1"
tracing = "0.1"

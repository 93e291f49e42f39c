[package]
name = "trade_watcher"
version = "0.1.0"
edition = "2021"
publish = false

[dependencies]
anyhow = "1"
clap = { version = "4", features = ["derive"] }
debounced = "*"
env_logger = "0.11"
futures = "0.3"
log = "0.4"
notify = "6"
poise = "0.6"
rust_decimal = "1"
serde = { version = "1", features = ["derive"] }
serde_yaml = "0.9"
strum = { version = "0.26", features = ["derive"] }
tokio = { version = "1", features = ["rt-multi-thread", "macros", "sync", "time"] }

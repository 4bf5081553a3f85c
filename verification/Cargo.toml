[package]
name = "alarm_gateway"
version = "0.1.0"
edition = "2021"
publish = false

[dependencies]
anyhow = "1"
chrono = "0.4"
clap = { version = "4", features = ["derive"] }
crossterm = "0.28"
discord-webhook-lib = "*"
env_logger = "0.11"
lazy_static = "1"
log = "0.4"
ratatui = "0.29"
rppal = "0.22"
rusqlite = { version = "0.32", features = ["bundled"] }
tokio = { version = "1", features = ["rt-multi-thread"] }

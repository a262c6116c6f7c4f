[package]
name = "rfs"
version = "0.1.0"
edition = "2021"
publish = false

[dependencies]
rand = "0.8"
serde = { version = "1", features = ["derive"] }
serde_bytes = "0.11"
tokio = { version = "1", features = ["full"] }
async-trait = "0.1"
futures = "0.3"
log = "0.4"
pretty_env_logger = "0.5"
clap = { version = "4", features = ["derive"] }
humantime = "2"
crossterm = { version = "0.27", features = ["event-stream"] }
ratatui = "0.26"
shh = "*"
csv = "1"
tokio-util = "0.7"

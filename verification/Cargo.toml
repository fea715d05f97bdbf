[package]
name = "chimera"
version = "0.2.0"
edition = "2021"
publish = false

[dependencies]
anyhow = "=1.0.104"
async-trait = "=0.1.92"
chrono = { version = "=0.4.45", features = ["serde"] }
crossterm = "=0.28.1"
futures-util = "=0.3.34"
globset = "=0.4.21"
ignore = "=0.4.34"
ratatui = "=0.29.0"
regex = "=1.13.1"
reqwest = { version = "=0.12.28", features = ["json", "stream"] }
serde = { version = "=1.0.229", features = ["derive"] }
serde_json = "=1.0.154"
thiserror = "=1.0.69"
tokio = { version = "=1.54.1", features = ["full"] }
tracing = "=0.1.44"
tracing-subscriber = { version = "=0.3.23", features = ["env-filter"] }
unicode-width = "=0.2.0"
uuid = { version = "=1.29.0", features = ["v4", "serde"] }

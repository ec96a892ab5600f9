[package]
name = "senseshift"
version = "0.1.0"
edition = "2021"
publish = false

[dependencies]
regex = "1"
serde = { version = "1", features = ["derive"] }
serde_json = "1"
serde_yaml = "0.9"
serde_with = { version = "3", features = ["base64"] }
toml = "0.8"
bytes = "1"
chrono = "0.4"
uuid = { version = "1", features = ["v4", "serde"] }
anyhow = "1"
tokio = { version = "1", features = ["sync", "rt-multi-thread", "macros", "time"] }
tracing = "0.1"
tracing-subscriber = "0.3"
clap = "4"
crossterm = "0.28"
ratatui = "0.29"
approx = "0.5"
reqwest = { version = "0.12", default-features = false, features = ["json"] }

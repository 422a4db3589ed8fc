[package]
name = "relay_bot"
version = "0.1.0"
edition = "2021"
publish = false

[dependencies]
clap = "=2.34.0"
futures = "=0.1.31"
reqwest = "=0.9.24"
serde_json = "=1.0.154"
telegram-bot = "=0.6.3"
tokio-core = "=0.1.18"
toml = "0.8"

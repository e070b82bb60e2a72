[package]
name = "codex_automation"
version = "0.1.0"
edition = "2021"
publish = false

[dependencies]
anyhow = "1"
chrono = "0.4"
clap = { version = "4", features = ["derive"] }
rusqlite = "*"
serde_json = "1"
toml = "*"

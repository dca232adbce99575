[package]
name = "noir_language_server"
version = "0.1.0"
edition = "2021"
publish = false

[dependencies]
dashmap = "5"
env_logger = "*"
ropey = "1"
serde = { version = "1", features = ["derive"] }
serde_json = "1"
thread-safe = "*"
tokio = { version = "1", features = ["full"] }
tower-lsp = "*"

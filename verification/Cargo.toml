[package]
name = "ai_trpg_engine"
version = "0.1.0"
edition = "2021"
publish = false

[dependencies]
dirs = "*"
chrono = "*"
serde = { version = "*", features = ["derive"] }
serde_json = "*"

[package]
name = "memo_store"
version = "0.1.0"
edition = "2021"
publish = false

[dependencies]
dotenvy = "=0.15.7"
rusqlite = { version = "=0.29.0", features = ["array", "modern_sqlite"] }
serde = { version = "=1.0.229", features = ["derive"] }
serde_json = "=1.0.154"
url = "=2.5.8"

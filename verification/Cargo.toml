[package]
name = "digest_server"
version = "0.1.0"
edition = "2021"
publish = false

[dependencies]
axum = "0.8"
reqwest = { version = "0.12", features = ["json"] }
rusqlite = "*"
serde = { version = "1", features = ["derive"] }
serde_json = "1"
tokio = { version = "1", features = ["macros", "rt-multi-thread", "net"] }

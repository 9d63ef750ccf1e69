[package]
name = "piper_server"
version = "0.1.0"
edition = "2021"
publish = false

[dependencies]
anyhow = "*"
axum = "*"
dotenvy = "*"
serde = { version = "*", features = ["derive"] }
serde_json = "*"
thiserror = "*"
tokio = { version = "*", features = ["macros", "net", "rt-multi-thread", "sync", "time"] }
tracing = "*"
tracing-subscriber = "*"

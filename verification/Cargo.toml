[package]
name = "summary_server"
version = "0.1.0"
edition = "2021"
publish = false

[dependencies]
axum = "0.7"
rust-bert = "*"
tokio = { version = "1", features = ["full"] }
tracing = "0.1"
tracing-subscriber = "0.3"

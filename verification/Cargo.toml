[package]
name = "model_control"
version = "0.1.0"
edition = "2021"
publish = false

[dependencies]
flume = "*"
serde = { version = "*", features = ["derive"] }
serde_json = "*"
axum = "*"
tokio = { version = "*", features = ["rt-multi-thread", "macros", "time"] }
futures-util = "*"
anyhow = "*"
memmap = "*"
zip-extract = "*"

[package]
name = "glimpse"
version = "0.1.0"
edition = "2021"
publish = false

[dependencies]
axum = "0.7"
serde = { version = "1", features = ["derive"] }
tempfile = "3"
tokio = { version = "1", features = ["net", "io-util", "rt-multi-thread"] }

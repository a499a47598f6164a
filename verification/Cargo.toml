[package]
name = "paced_relay"
version = "0.1.0"
edition = "2021"
publish = false

[dependencies]
bytes = "*"
tokio = { version = "*", features = ["full"] }
srt-tokio = "*"
futures = "*"
tokio-stream = "*"
anyhow = "*"

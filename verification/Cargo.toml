[package]
name = "jwaf"
version = "0.1.0"
edition = "2021"
publish = false

[dependencies]
futures = "0.3"
hyper = { version = "0.14", features = ["full"] }
regex = "1"
serde_json = "1"
slog = "2"
slog-term = "2"
tokio = { version = "1", features = ["full"] }

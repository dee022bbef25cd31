[package]
name = "reconnecting_connection"
version = "0.1.0"
edition = "2021"
publish = false

[dependencies]
redis = { version = "*", features = ["tokio-comp"] }
tokio = { version = "*", features = ["rt", "sync", "time"] }
tokio-retry = "*"
futures-intrusive = "*"

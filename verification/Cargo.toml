[package]
name = "rmcp"
version = "0.1.0"
edition = "2021"
publish = false

[dependencies]
futures = "0.3"
pin-project-lite = "0.2"
tokio = { version = "1", features = ["sync", "rt", "macros", "io-util", "io-std", "time"] }
tokio-util = "0.7"
tower = { version = "0.5", default-features = false }
tower-service = "0.3"
tracing = "0.1"

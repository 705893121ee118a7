[package]
name = "aurora_client"
version = "0.1.0"
edition = "2021"
publish = false

[dependencies]
chrono = "0.4"
futures = "0.1"
hyper = "0.11"
jni = "0.21"
mime = "0.3"
serde = { version = "1", features = ["derive"] }
sun-times = "0.1"
tokio-core = "0.1"
tokio-proto = "0.1"
tokio-service = "0.1"
tokio-timer = "0.1"
toml = "0.4"

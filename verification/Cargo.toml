[package]
name = "input_relay"
version = "0.1.0"
edition = "2021"
publish = false

[dependencies]
parking_lot = "0.12"
axum = { version = "0.6", features = ["ws", "headers"] }
tokio = { version = "1", features = ["full"] }
futures = "0.3"
tower-http = { version = "0.4", features = ["fs", "trace"] }
tracing = "0.1"
tracing-subscriber = "0.3"

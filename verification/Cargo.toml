[package]
name = "rtt_bench"
version = "0.1.0"
edition = "2021"
publish = false

[dependencies]
axum = "0.6"
csv = "1"
futures = "0.3"
reqwest = { version = "0.11", default-features = false }
serde_json = "1"
tokio = { version = "1", features = ["macros", "rt", "rt-multi-thread", "time"] }
tower = "0.4"
tower-http = { version = "0.4", features = ["limit", "timeout", "trace"] }
tracing = "0.1"
tracing-subscriber = "0.3"

[package]
name = "ping_ingest"
version = "0.1.0"
edition = "2021"
publish = false

[dependencies]
serde_json = "*"
clap = { version = "*", features = ["derive"] }
salvo = { version = "*", default-features = false, features = ["server", "http1"] }
tokio = { version = "*", features = ["rt-multi-thread", "macros"] }
tracing = "*"
tracing-appender = "*"
tracing-error = "*"
tracing-subscriber = { version = "*", features = ["env-filter"] }
chrono = "*"

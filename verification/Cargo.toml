[package]
name = "db_endpoint"
version = "0.1.0"
edition = "2021"
publish = false

[dependencies]
serde_json = "1"
uuid = { version = "1", features = ["v4"] }
chrono = { version = "0.4", default-features = false, features = ["clock", "std"] }
axum = "0.8"
tokio = { version = "1", features = ["macros", "rt-multi-thread", "net"] }
reqwest = { version = "0.12", default-features = false, features = ["json"] }
mongodb = "3"
serde = { version = "1", features = ["derive"] }
futures = "0.3"
tower-http = { version = "0.6", features = ["cors", "trace"] }
env_logger = "0.11"
tracing = "0.1"

[package]
name = "jobqueue"
version = "0.1.0"
edition = "2021"
publish = false

[dependencies]
chrono = { version = "=0.4.45", features = ["serde"] }
metrics-exporter-prometheus = { version = "*", default-features = false }
poem = "*"
redis = { version = "*", features = ["tokio-comp"] }
reqwest = { version = "*", default-features = false }
serde = { version = "*", features = ["derive"] }
serde_json = "=1.0.151"
sqlx = { version = "*", default-features = false, features = ["postgres", "runtime-tokio", "chrono", "uuid"] }
thiserror = "*"
tokio = { version = "*", features = ["rt-multi-thread", "macros", "sync"] }
tracing = "*"
tracing-subscriber = { version = "*", features = ["env-filter"] }
uuid = { version = "=1.27.0", features = ["v4"] }

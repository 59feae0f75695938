[package]
name = "scree"
version = "0.1.0"
edition = "2021"
publish = false

[dependencies]
anyhow = "1"
askama = "0.12"
axum = "0.8"
chrono = "0.4"
clap = { version = "4", features = ["derive", "cargo"] }
comfy-table = "7"
deadpool-postgres = "0.14"
futures = "0.3"
humantime = "2"
native-tls = "0.2"
postgres-native-tls = "0.5"
postgres-types = { version = "0.2", features = ["derive"] }
reqwest = "0.12"
serde = { version = "1", features = ["derive"] }
serde_json = "1"
thiserror = "2"
tokio = { version = "1", features = ["full"] }
tokio-postgres = { version = "0.7", features = ["with-chrono-0_4"] }
tokio-stream = { version = "0.1", features = ["signal"] }
tokio-util = "0.7"
tracing = "0.1"
tracing-subscriber = { version = "0.3", features = ["env-filter"] }
uuid = { version = "1", features = ["v4"] }

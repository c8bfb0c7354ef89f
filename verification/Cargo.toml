[package]
name = "sidafa_cache"
version = "0.1.0"
edition = "2021"
publish = false

[dependencies]
serde_json = "1"
serde = { version = "1", features = ["derive"] }
anyhow = "1"
thiserror = "*"
axum = "*"
dotenvy = "*"
redis = { version = "*", features = ["tokio-comp", "connection-manager"] }
reqwest = { version = "*", features = ["json"] }
tokio = { version = "1", features = ["rt-multi-thread", "macros", "net", "time"] }
tower = "*"
tower_governor = "*"
tower-http = { version = "*", features = ["trace"] }
tracing = "0.1"
tracing-subscriber = { version = "*", features = ["env-filter"] }

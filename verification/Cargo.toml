[package]
name = "mozu"
version = "0.1.0"
edition = "2021"
publish = false

[dependencies]
anyhow = "*"
axum = "*"
deadpool-postgres = "*"
mime = "*"
regex = "*"
reqwest = { version = "*", default-features = false, features = ["json"] }
serde = { version = "*", features = ["derive"] }
serde_json = "*"
thiserror = "*"
tokio = { version = "*", features = ["rt-multi-thread", "macros", "net", "signal"] }
tokio-postgres = "*"
tower-http = { version = "*", features = ["trace"] }
tracing = "*"
tracing-subscriber = { version = "*", features = ["env-filter"] }
typed-builder = "*"
url = "*"
uuid = { version = "*", features = ["v7"] }

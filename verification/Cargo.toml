[package]
name = "message_relay"
version = "0.1.0"
edition = "2021"
publish = false

[dependencies]
async-nats = "*"
async-trait = "*"
axum = "*"
base64 = "*"
bytes = "*"
chrono = { version = "*", features = ["serde"] }
clap = { version = "*", features = ["derive"] }
config = { version = "*", default-features = false, features = ["toml"] }
eyre = "*"
futures-util = "*"
mongodb = "*"
prost = "*"
prost-types = "*"
serde = { version = "*", features = ["derive"] }
serde_json = "*"
serde_with = { version = "*", features = ["base64"] }
tokio = { version = "*", features = ["full"] }
tokio-util = { version = "*", features = ["rt"] }
tower-http = { version = "*", features = ["cors", "trace"] }
tracing = "*"
tracing-subscriber = { version = "*", features = ["env-filter"] }
utoipa = "*"
utoipa-axum = "*"
uuid = { version = "*", features = ["serde"] }

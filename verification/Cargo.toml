[package]
name = "ponga_auth"
version = "0.1.0"
edition = "2021"
publish = false

[dependencies]
jsonwebtoken = "=9.3.1"
serde = { version = "=1.0.229", features = ["derive"] }
serde_json = "=1.0.154"
axum = "=0.7.9"
axum-extra = { version = "=0.9.6", features = ["typed-header"] }
reqwest = { version = "=0.12.28", features = ["json"] }
rqlite-rs = "=0.6.2"
thiserror = "=1.0.69"
tokio = { version = "=1.54.1", features = ["full"] }
tracing = "=0.1.44"
tracing-subscriber = "=0.3.23"
validator = "=0.18.1"
async-trait = "=0.1.92"

[dev-dependencies]
num-bigint = "=0.4.8"

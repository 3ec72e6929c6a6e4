[package]
name = "transcriber"
version = "0.1.0"
edition = "2021"
publish = false

[dependencies]
again = "0.1"
anyhow = "1"
async-trait = "0.1"
axum = { version = "0.7", features = ["multipart"] }
chrono = "0.4"
clap = { version = "4", features = ["derive", "env"] }
deadpool-diesel = { version = "0.6", features = ["postgres"] }
diesel = { version = "2", features = ["postgres", "chrono"] }
env_logger = "0.11"
futures = "0.3"
log = "0.4"
pgmq = "0.29"
rand = "0.8"
reqwest = { version = "0.12", default-features = false, features = ["json", "multipart", "stream"] }
scopeguard = "1"
serde = { version = "1", features = ["derive"] }
serde_json = "1"
thiserror = "1"
tokio = { version = "1", features = ["full"] }
tokio-util = { version = "0.7", features = ["io", "codec"] }
tower-http = { version = "0.5", features = ["cors", "trace", "limit", "timeout"] }
tracing = "0.1"
tracing-subscriber = { version = "0.3", features = ["env-filter"] }
ulid = "1"

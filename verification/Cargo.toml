[package]
name = "podkit_server"
version = "0.1.0"
edition = "2021"
publish = false

[dependencies]
axum = "=0.8.9"
axum-extra = { version = "=0.10.3", features = ["typed-header"] }
better-tracing = "=0.6.0"
dirs = "=6.0.0"
dotenvy = "=0.15.7"
serde = { version = "=1.0.229", features = ["derive"] }
thiserror = "=2.0.21"
time = "=0.3.55"
tokio = { version = "=1.54.1", features = ["full"] }
tower-cookies = "=0.11.0"
tower-http = { version = "=0.6.11", features = ["cors"] }
tracing = "=0.1.44"
zeroize = "=1.9.1"

[package]
name = "rustube"
version = "0.1.0"
edition = "2021"
publish = false

[dependencies]
anyhow = "1"
askama = "0.11"
axum = "0.5"
clap = { version = "3", features = ["derive", "env"] }
futures = "0.3"
serde = { version = "1", features = ["derive"] }
serde_json = "1"
sqlx = { version = "0.6", features = ["runtime-tokio-rustls", "sqlite", "migrate"] }
thiserror = "1"
time = { version = "0.3", features = ["parsing", "formatting", "serde"] }
tokio = { version = "1", features = ["full"] }
toml = "0.5"
tower = "0.4"
tower-http = { version = "0.3", features = ["trace", "fs", "add-extension"] }
tracing = "0.1"
tracing-subscriber = "0.3"
wax = "0.5"

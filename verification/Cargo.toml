[package]
name = "owasu"
version = "0.1.0"
edition = "2021"
publish = false

[dependencies]
axum = "0.5"
axum-server = "0.4"
hyper = { version = "0.14", features = ["full"] }
tokio = { version = "1", features = ["full"] }
tower = { version = "0.4", features = ["full"] }
tower-http = { version = "0.3", features = ["trace", "compression-full", "util"] }
tracing = "0.1"
tracing-subscriber = { version = "0.3", features = ["env-filter", "local-time"] }
tracing-log = "0.1"
time = { version = "0.3", features = ["macros", "formatting"] }
figlet-rs = "0.1"
clap = { version = "3", features = ["derive"] }
serde = { version = "1", features = ["derive"] }
serde_json = "1"
serde_yaml = "0.8"
humantime-serde = "1"
reqwest = { version = "0.11", default-features = false, features = ["json", "rustls-tls"] }
chrono = { version = "0.4", default-features = false, features = ["std"] }

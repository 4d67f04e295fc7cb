[package]
name = "dragonfly"
version = "0.1.0"
edition = "2021"
publish = false

[dependencies]
anyhow = "=1.0.104"
argon2 = "=0.5.3"
axum = { version = "=0.8.9", features = ["ws"] }
bytes = "=1.12.1"
chrono = "=0.4.45"
clap = { version = "=4.6.7", features = ["derive"] }
dns-lookup = "=2.1.1"
futures = "=0.3.34"
hyper = { version = "=0.14.32", default-features = false }
k8s-openapi = { version = "=0.25.0", features = ["latest"] }
kube = { version = "=1.1.0", default-features = false, features = ["client", "rustls-tls"] }
listenfd = "=1.0.2"
metrics = "=0.24.6"
metrics-exporter-prometheus = { version = "=0.17.2", default-features = false }
minijinja = { version = "=2.24.0", features = ["loader"] }
netdev = "=0.38.2"
rand = "=0.8.8"
reqwest = { version = "=0.12.28", default-features = false, features = ["json", "stream", "rustls-tls"] }
serde = { version = "=1.0.229", features = ["derive"] }
serde_json = "=1.0.154"
serde_yaml = "=0.9.34+deprecated"
sysinfo = "=0.33.1"
sqlx = { version = "=0.8.6", default-features = false, features = ["sqlite", "runtime-tokio"] }
tokio = { version = "=1.54.1", features = ["full"] }
tokio-tungstenite = "=0.26.2"
tracing = "=0.1.44"
tracing-subscriber = { version = "=0.3.23", features = ["env-filter"] }
url = "=2.5.8"
urlencoding = "=2.1.3"
uuid = { version = "=1.29.0", features = ["v4", "v5", "v7", "serde"] }

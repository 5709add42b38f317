[package]
name = "vale_gateway"
version = "0.1.0"
edition = "2021"
publish = false

[dependencies]
ipnet = "=2.12.2"
chrono = "=0.4.45"
k8s-openapi = { version = "=0.28.0", features = ["latest"] }
kube = { version = "=4.2.0", features = ["runtime", "client", "derive"] }
gateway-api = "=0.22.0"
clap = { version = "=4.6.7", features = ["derive"] }
tabled = "=0.22.0"
serde = { version = "=1.0.229", features = ["derive"] }
serde_json = "=1.0.154"
serde_yaml = "=0.9.34"
tokio = { version = "=1.54.1", features = ["full"] }
anyhow = "=1.0.104"
tracing = "=0.1.44"
tracing-subscriber = "=0.3.23"
thiserror = "=2.0.21"
axum = "0.8"
futures = "0.3"

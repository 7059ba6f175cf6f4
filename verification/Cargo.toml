[package]
name = "clair_operator"
version = "0.1.0"
edition = "2021"
publish = false

[dependencies]
axum = "=0.8.9"
clap = { version = "=4.6.7", features = ["env", "cargo"] }
futures = "=0.3.34"
json-patch = "=4.2.0"
k8s-openapi = { version = "=0.29.0", features = ["latest", "schemars"] }
kube = { version = "=5.0.0", features = ["runtime", "client", "admission", "derive"] }
libc = "=0.2.191"
metrics-exporter-prometheus = "=0.18.3"
schemars = "=1.2.3"
serde = { version = "=1.0.229", features = ["derive"] }
serde_json = "=1.0.154"
serde_yaml = "=0.9.34"
signal-hook = "=0.4.6"
tokio = { version = "=1.54.1", features = ["full"] }
tokio-native-tls = "=0.3.1"
tokio-stream = { version = "=0.1.19", features = ["net", "signal"] }
tokio-util = "=0.7.20"
tower-http = { version = "=0.7.1", features = ["trace"] }
tracing = "=0.1.44"
tracing-subscriber = { version = "=0.3.23", features = ["env-filter", "json"] }
xshell = "=0.2.7"

[package]
name = "inrush"
version = "0.1.0"
edition = "2021"
publish = false

[dependencies]
anyhow = "1"
askama = "0.14"
futures = "0.3"
k8s-openapi = { version = "=0.24.0", features = ["latest"] }
kube = { version = "=0.98.0", features = ["runtime", "derive", "unstable-runtime"] }
resolv-conf = "=0.7.6"
schemars = "0.8"
serde = { version = "1", features = ["derive"] }
serde_json = "1"
serde_yaml = "0.9"
tokio = { version = "1", features = ["macros", "rt-multi-thread", "time"] }
tracing = "0.1"
tracing-subscriber = "0.3"

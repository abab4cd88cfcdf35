[package]
name = "trino_connection"
version = "0.1.0"
edition = "2021"
publish = false

[dependencies]
k8s-openapi = { version = "=0.20.0", features = ["v1_28", "schemars"] }
kube = { version = "=0.87.2", default-features = false, features = ["client", "runtime", "derive"] }
schemars = "=0.8.22"
serde = { version = "=1.0.229", features = ["derive"] }
serde_json = "=1.0.154"
tracing = "=0.1.44"

[dev-dependencies]
serde_yaml = "=0.9.34"

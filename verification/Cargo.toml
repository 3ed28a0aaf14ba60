[package]
name = "kubizone_crds"
version = "0.1.0"
edition = "2021"
publish = false

[dependencies]
kube = { version = "=0.99.0", default-features = false, features = ["derive", "runtime"] }
k8s-openapi = { version = "=0.24.0", features = ["latest"] }
schemars = "=0.8.22"
serde = { version = "=1.0.229", features = ["derive"] }
serde_json = "1"
serde_yaml = "=0.9.34"

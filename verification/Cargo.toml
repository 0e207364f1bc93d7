[package]
name = "dc_to_deployment"
version = "0.1.0"
edition = "2021"
publish = false

[dependencies]
k8s-openapi = { version = "*", features = ["latest"] }
kube = { version = "*", default-features = false, features = ["derive"] }
serde = { version = "*", features = ["derive"] }
serde_json = "*"
serde_yaml = "*"

[package]
name = "k8s_wasi"
version = "0.1.0"
edition = "2021"
publish = false

[dependencies]
base64 = "0.13"
k8s-openapi = { version = "0.17", features = ["v1_24"] }
serde = { version = "1", features = ["derive"] }
serde_json = "1"

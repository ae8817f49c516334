[package]
name = "k8s_lease"
version = "0.1.0"
edition = "2021"
publish = false

[dependencies]
anyhow = "1"
async-trait = "0.1"
k8s-openapi = { version = "*", features = ["latest"] }
kube = "*"
tokio = { version = "1", features = ["macros", "rt", "time"] }
tokio-util = "0.7"
tracing = "0.1"

[package]
name = "gatekeeper_view"
version = "0.1.0"
edition = "2021"
publish = false

[dependencies]
actix-web = "*"
askama = "*"
async-trait = "*"
env_logger = "*"
kube = "=3.1.0"
k8s-openapi = { version = "=0.27.1", features = ["latest"] }
log = "*"
serde_json = "*"

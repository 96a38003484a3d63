[package]
name = "policy_controller"
version = "0.1.0"
edition = "2021"
publish = false

[dependencies]
futures = "=0.3.34"
hyper = "=0.14.32"
k8s-openapi = { version = "=0.14.0", default-features = false, features = ["v1_20"] }
kube = { version = "=0.70.0", default-features = false, features = ["admission"] }
serde_json = "=1.0.154"
thiserror = "=1.0.69"
tracing = "=0.1.44"

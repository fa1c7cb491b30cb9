[package]
name = "lease_lock"
version = "0.1.0"
edition = "2021"
publish = false

[dependencies]
chrono = { version = "0.4", default-features = false, features = ["clock", "std"] }
futures = "0.3"
http = "0.2"
k8s-openapi = { version = "0.20", features = ["v1_28"] }
kube = { version = "0.87", default-features = false, features = ["client"] }
log = "0.4"
serde_json = "1"
thiserror = "1"
tokio = { version = "1", features = ["macros", "rt-multi-thread", "sync", "time"] }
tokio-retry = "0.3"

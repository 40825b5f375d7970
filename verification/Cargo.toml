[package]
name = "ktest"
version = "0.1.0"
edition = "2021"
publish = false

[dependencies]
kube = { version = "=3.1.0", default-features = false, features = ["client", "config", "rustls-tls"] }
k8s-openapi = { version = "=0.27.1", features = ["latest"] }
serde_yaml = "=0.9.34"
serde_json = "=1.0.151"
rustls = { version = "=0.23.45", default-features = false, features = ["ring", "logging", "std", "tls12"] }
testcontainers-modules = { version = "=0.15.0", features = ["kwok"] }
tokio = { version = "=1.53.2", features = ["macros", "rt-multi-thread"] }

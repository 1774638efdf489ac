[package]
name = "readiness_operator"
version = "0.1.0"
edition = "2021"
publish = false

[dependencies]
axum = "*"
color-eyre = "*"
futures = "*"
k8s-openapi = { version = "*", features = ["latest"] }
kube = { version = "*", default-features = false, features = ["client", "runtime", "rustls-tls"] }
reqwest = { version = "*", default-features = false, features = ["json", "rustls-tls"] }
serde = { version = "*", features = ["derive"] }
serde_json = "*"
tokio = { version = "*", features = ["macros", "rt-multi-thread", "net", "sync"] }
tracing = "*"
tracing-subscriber = "*"
uuid = { version = "*", features = ["serde"] }

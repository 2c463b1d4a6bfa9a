[package]
name = "flare_orchestrator"
version = "0.1.0"
edition = "2021"
publish = false

[dependencies]
anyhow = "1"
async-trait = "0.1"
base64 = "0.22"
chrono = { version = "0.4", default-features = false, features = ["clock", "std"] }
redis = { version = "0.27", default-features = false, features = ["tokio-comp", "connection-manager", "script"] }
serde = { version = "1", features = ["derive"] }
serde_json = "1"
tokio = { version = "1", features = ["rt", "macros", "sync", "time"] }
tracing = "0.1"
uuid = { version = "1", features = ["v4"] }

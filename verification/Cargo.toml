[package]
name = "determinishtic"
version = "0.1.0"
edition = "2021"
publish = false

[dependencies]
sacp = "*"
sacp-conductor = "*"
schemars = "*"
serde = { version = "*", features = ["derive"] }
serde_json = "*"
thiserror = "*"
tokio = { version = "*", features = ["rt", "sync", "macros", "time"] }
tracing = "*"

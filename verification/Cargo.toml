[package]
name = "rustfs_core"
version = "0.1.0"
edition = "2021"
publish = false

[dependencies]
base64-simd = "*"
chrono = "*"
time = { version = "*", features = ["formatting", "parsing"] }
serde = "*"
tokio = { version = "*", features = ["sync"] }
tonic = "*"
tracing = "*"

[dev-dependencies]
serde_json = "*"

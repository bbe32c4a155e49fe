[package]
name = "temporal_worker"
version = "0.1.0"
edition = "2021"
publish = false

[dependencies]
futures-util = "=0.3.34"
http = "=1.5.0"
prost = { version = "=0.14.4", features = ["derive"] }
serde = { version = "=1.0.229", features = ["derive"] }
tokio = { version = "=1.54.1", features = ["rt", "sync", "time"] }
tonic = { version = "=0.14.9", default-features = false }

[package]
name = "iroh_raft"
version = "0.1.0"
edition = "2021"
publish = false

[dependencies]
raft-proto = "=0.7.0"
chrono = "=0.4.45"
uuid = { version = "=1.29.0", features = ["v4"] }
rand = "=0.8.8"
serde = { version = "=1.0.229", features = ["derive"] }
serde_json = "=1.0.154"
bincode = "=1.3.3"
tokio = { version = "=1.54.1", features = ["sync", "time", "rt", "macros"] }
toml = "=0.8.23"
crossbeam-queue = "=0.3.14"
dashmap = "=5.5.3"
humantime-serde = "=1.1.1"
protobuf = "=2.28.0"

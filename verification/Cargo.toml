[package]
name = "robs"
version = "0.1.0"
edition = "2021"
publish = false

[dependencies]
anyhow = "1"
serde_json = "1"
serde = { version = "1", features = ["derive"] }
tokio = { version = "1", features = ["rt-multi-thread", "sync", "time", "macros"] }
async-trait = "0.1"
parking_lot = "0.12"
chrono = "0.4"
uuid = { version = "1", features = ["v4"] }
fastrand = "2"
toml = "0.8"
directories = "*"
flume = "0.11"
ffmpeg-sidecar = "*"
thiserror = "1"
futures = "0.3"
crossbeam = "0.8"
tracing = "0.1"
tracing-subscriber = "0.3"
egui = "*"

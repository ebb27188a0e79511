[package]
name = "caxton"
version = "0.1.0"
edition = "2021"
publish = false

[dependencies]
uuid = { version = "=1.29.0", features = ["v4"] }
serde = { version = "=1.0.229", features = ["derive"] }
serde_json = "=1.0.154"
num_cpus = "=1.17.0"
tokio = { version = "=1.54.1", features = ["rt-multi-thread", "macros", "sync", "net", "time"] }
axum = "=0.8.9"
tracing = "=0.1.44"
thiserror = "=2.0.21"
fastrand = "2"
tokio-util = "0.7"
once_cell = "1"

[package]
name = "rust_thread_system"
version = "0.1.0"
edition = "2021"
publish = false

[dependencies]
num_cpus = "=1.17.0"
crossbeam = "=0.8.5"
crossbeam-channel = "=0.5.17"
parking_lot = "=0.12.5"
fastrand = "=2.5.0"
serde = { version = "=1.0.229", features = ["derive"] }
serde_json = "=1.0.154"
chrono = { version = "=0.4.45", features = ["serde"] }
log = "=0.4.35"
thiserror = "=1.0.69"
dashmap = "6"

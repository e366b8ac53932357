[package]
name = "hardware_monitor"
version = "0.1.0"
edition = "2021"
publish = false

[dependencies]
log = "0.4"
nvml-wrapper = "0.10"
serde = { version = "1", features = ["derive"] }
serde_json = "1"
sysinfo = "0.31"
tokio = { version = "1", features = ["sync"] }

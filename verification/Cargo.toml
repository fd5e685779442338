[package]
name = "hostmon"
version = "0.1.0"
edition = "2021"
publish = false

[dependencies]
sysinfo = "0.33"
nvml-wrapper = "*"
crossbeam-channel = "0.5"
log = "0.4"
thiserror = "*"
serde = { version = "1", features = ["derive"] }

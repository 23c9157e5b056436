[package]
name = "legion_rgb"
version = "0.1.0"
edition = "2021"
publish = false

[dependencies]
rand = "=0.9.5"
hidapi = { version = "=2.6.7", default-features = false, features = ["linux-native-basic-udev"] }
serde = { version = "=1.0.229", features = ["derive"] }
serde_json = "=1.0.154"
crossbeam-channel = "=0.5.17"
winapi = { version = "=0.3.9", features = ["winuser", "wingdi"] }
sysinfo = "=0.40.1"
nvml-wrapper = "=0.13.0"
chrono = { version = "0.4", default-features = false, features = ["clock"] }
single-instance = "*"

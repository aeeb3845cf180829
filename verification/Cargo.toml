[package]
name = "opaper_core"
version = "0.1.0"
edition = "2021"
publish = false

[dependencies]
base64 = "0.22"
chrono = "0.4"
serde = { version = "1", features = ["derive"] }
serde_json = "1"
dirs = "*"
sysinfo = "*"
reqwest = { version = "*", default-features = false }

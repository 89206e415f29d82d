[package]
name = "kerr"
version = "0.1.0"
edition = "2021"
publish = false

[dependencies]
anyhow = "1"
base64 = "0.22"
bincode = "2"
blake3 = { version = "1", features = ["pure"] }
chrono = "0.4"
clap = { version = "4", features = ["derive"] }
directories = "*"
flate2 = "1"
rand = "0.9"
serde = { version = "1", features = ["derive"] }
serde_json = "1"
thiserror = "*"
tokio = { version = "1", features = ["full"] }
url = "2"

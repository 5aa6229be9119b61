[package]
name = "nocodo"
version = "0.1.0"
edition = "2021"
publish = false

[dependencies]
serde = { version = "1", features = ["derive"] }
serde_json = "1"
serde_yaml = "0.9"
toml = "0.8"
sha2 = "0.10"
base64 = "0.22"
chrono = "0.4"
clap = { version = "4", features = ["derive"] }
anyhow = "1"
ignore = "0.4"
urlencoding = "2"
dirs = "5"
thiserror = "1"

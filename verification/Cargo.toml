[package]
name = "gensokyo_radio"
version = "0.1.0"
edition = "2021"
publish = false

[dependencies]
anyhow = "1"
env_logger = "0.11"
http = "1"
icy-metadata = { version = "*", features = ["reqwest"] }
log = "0.4"
reqwest = { version = "0.12", features = ["json"] }
rodio = "0.20"
serde = { version = "1", features = ["derive"] }
stream-download = { version = "*", features = ["reqwest"] }
tokio = { version = "1", features = ["full"] }

[package]
name = "mutualzz-updater"
version = "0.1.0"
edition = "2021"
publish = false

[dependencies]
dirs = "5"
semver = "1"
sha2 = "0.10"
hex = "0.4"
serde = { version = "1", features = ["derive"] }
serde_json = "1"
anyhow = "1"
log = "0.4"
env_logger = "0.11"
tokio = { version = "1", features = ["rt-multi-thread", "fs", "time", "io-util", "sync"] }
reqwest = { version = "0.12", default-features = false, features = ["json", "stream", "rustls-tls"] }
futures-util = "0.3"
zip = { version = "2", default-features = false, features = ["deflate"] }
image = { version = "0.25", default-features = false, features = ["png"] }
eframe = { version = "0.29", default-features = false, features = ["glow", "default_fonts"] }
libc = "0.2"

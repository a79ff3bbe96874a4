[package]
name = "snaptask"
version = "0.1.0"
edition = "2021"
publish = false

[dependencies]
serde = { version = "1", features = ["derive"] }
serde_json = "1"
uuid = { version = "1", features = ["v7"] }
base64 = "0.22"
rusqlite = { version = "0.32", features = ["bundled"] }
reqwest = { version = "0.12", default-features = false, features = ["json", "blocking", "rustls-tls"] }
tokio = { version = "1", features = ["rt-multi-thread", "time", "macros"] }
chrono = "0.4"
image = { version = "0.25", default-features = false, features = ["png"] }
anyhow = "1"
log = "0.4"
env_logger = "0.11"
dirs = "5"

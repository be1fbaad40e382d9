[package]
name = "matrix-journal"
version = "0.1.0"
edition = "2021"
publish = false

[dependencies]
anyhow = "1"
chrono = { version = "0.4", default-features = false, features = ["clock", "std", "serde"] }
chrono-tz = "0.10"
clap = { version = "4", default-features = false, features = ["std", "derive", "help", "usage", "error-context"] }
env_logger = { version = "0.11", default-features = false }
iana-time-zone = "0.1"
log = "0.4"
matrix-sdk = { version = "0.14", default-features = false, features = ["e2e-encryption", "automatic-room-key-forwarding", "sqlite", "bundled-sqlite", "rustls-tls"] }
serde = { version = "1", features = ["derive"] }
serde_json = "1"
tokio = { version = "1", features = ["macros", "rt-multi-thread"] }
xdg = "3"

[package]
name = "wisper"
version = "0.1.0"
edition = "2021"
publish = false

[dependencies]
hound = "3.5"
anyhow = "1"
log = "0.4"
serde = { version = "1", features = ["derive"] }
serde_json = "1"
tokio = { version = "1", features = ["rt", "time", "sync", "macros"] }
reqwest = { version = "0.12", default-features = false, features = ["json", "multipart", "rustls-tls"] }
cpal = "0.15"
objc = "0.2"

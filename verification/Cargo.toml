[package]
name = "norisk_api"
version = "0.1.0"
edition = "2021"
publish = false

[dependencies]
http = "1"
uuid = { version = "1", features = ["serde"] }
serde = { version = "1", features = ["derive"] }
serde_json = "1"
log = "0.4"
reqwest = { version = "0.12", default-features = false, features = ["json", "rustls-tls"] }

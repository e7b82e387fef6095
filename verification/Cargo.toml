[package]
name = "ecu_relay"
version = "0.1.0"
edition = "2021"
publish = false

[dependencies]
serde = { version = "=1.0.229", features = ["derive"] }
serde_json = "=1.0.154"
tokio = { version = "=1.54.1", features = ["full"] }
warp = { version = "=0.3.7", features = ["tls"] }
reqwest = { version = "=0.11.27", default-features = false, features = ["rustls-tls"] }
clap = { version = "=4.6.7", features = ["derive"] }
mime = "=0.3.17"

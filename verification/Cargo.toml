[package]
name = "spatia"
version = "0.1.0"
edition = "2021"
publish = false

[dependencies]
reqwest = { version = "=0.12.28", default-features = false, features = ["json", "rustls-tls"] }
serde = { version = "=1.0.229", features = ["derive"] }
serde_json = "=1.0.154"
tokio = { version = "=1.54.1", features = ["rt", "net", "time"] }

[package]
name = "kode"
version = "0.1.0"
edition = "2021"
publish = false

[dependencies]
semver = "1"
url = "2"
serde = { version = "1", features = ["derive"] }
serde_json = "1"
uuid = { version = "1", features = ["v4"] }
tokio = { version = "1", features = ["time", "rt"] }
reqwest = { version = "0.12", default-features = false, features = ["rustls-tls"] }

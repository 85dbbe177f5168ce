[package]
name = "voxpill"
version = "0.1.0"
edition = "2021"
publish = false

[dependencies]
serde = { version = "1", features = ["derive"] }
serde_json = "1"
uuid = { version = "1", features = ["v4"] }
urlencoding = "2"
sysinfo = "0.37"
reqwest = { version = "0.12", default-features = false, features = ["blocking", "json", "multipart", "rustls-tls"] }
symphonia = "0.5"
tokio = { version = "1", features = ["fs", "io-util", "rt"] }
futures-util = "0.3"

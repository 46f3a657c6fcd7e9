[package]
name = "pan_transfer"
version = "0.1.0"
edition = "2021"
publish = false

[dependencies]
md-5 = "=0.10.6"
hex = "=0.4.3"
reqwest = { version = "=0.12.28", default-features = false, features = ["json", "stream", "rustls-tls", "cookies"] }
tokio = { version = "=1.53.2", features = ["fs", "io-util", "rt", "macros"] }
futures-util = "=0.3.34"
serde = { version = "=1.0.229", features = ["derive"] }
serde_json = "=1.0.151"
uuid = { version = "=1.27.0", features = ["v4"] }

[dev-dependencies]
regex = "=1.13.1"

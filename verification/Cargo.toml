[package]
name = "rgb_channels"
version = "0.1.0"
edition = "2021"
publish = false

[dependencies]
base64 = "0.22"
bip39 = "2"
bitcoin = "0.32"
futures = "0.3"
hex = "0.4"
hypersonic = "*"
reqwest = { version = "0.12", default-features = false, features = ["blocking", "json", "multipart"] }
serde = { version = "1", features = ["derive"] }
serde_json = "1"
tokio = { version = "1", features = ["rt", "rt-multi-thread"] }

[package]
name = "fictional-potato"
version = "0.1.0"
edition = "2021"
publish = false

[dependencies]
validator = "=0.21.0"
chrono = { version = "=0.4.45", default-features = false, features = ["std"] }
keyring = "=3.6.3"
zxcvbn = "=3.1.1"
reqwest = { version = "=0.12.28", default-features = false, features = ["json"] }
iced = { version = "=0.13.1", default-features = false, features = ["tiny-skia", "tokio"] }
serde = { version = "=1.0.229", features = ["derive"] }
serde_json = "=1.0.154"

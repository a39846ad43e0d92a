[package]
name = "openprot"
version = "0.1.0"
edition = "2021"
publish = false

[dependencies]
aes = { version = "0.8", default-features = false }
hmac = { version = "0.12", default-features = false }
sha2 = { version = "0.10", default-features = false }
heapless = "0.8"

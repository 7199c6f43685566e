[package]
name = "oath_core"
version = "0.1.0"
edition = "2021"
publish = false

[dependencies]
heapless-bytes = "=0.3.0"
trussed = "=0.1.0"
iso7816 = "=0.2.2"
serde = { version = "=1.0.229", default-features = false, features = ["derive"] }

[dev-dependencies]
hmac = "=0.12.1"
sha1 = "=0.10.7"
sha2 = "=0.10.9"

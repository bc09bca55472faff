[package]
name = "memory_backend"
version = "0.1.0"
edition = "2021"
publish = false

[dependencies]
primitive-types = "0.12"
sha3 = "0.10"
serde = { version = "1", features = ["derive"] }
serde_json = "1"
actix = "0.13"
actix-rt = "2"

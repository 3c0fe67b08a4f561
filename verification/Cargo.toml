[package]
name = "keysound"
version = "0.1.0"
edition = "2021"
publish = false

[dependencies]
input = "0.9"
libc = "0.2"
rodio = "0.20"
serde = { version = "1", features = ["derive"] }
serde_json = "1"

[package]
name = "wire_handshake"
version = "0.1.0"
edition = "2021"
publish = false

[dependencies]
lazy_static = "1.4"
os_info = { version = "3", default-features = false }
version_check = "0.9"

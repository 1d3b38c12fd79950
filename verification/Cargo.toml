[package]
name = "companion_pack_protocol"
version = "0.1.0"
edition = "2021"
publish = false

[dependencies]
serde_json = { version = "=1.0.154", features = ["preserve_order", "float_roundtrip"] }

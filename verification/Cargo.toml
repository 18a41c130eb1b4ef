[package]
name = "s_jup_interface"
version = "0.1.0"
edition = "2021"
publish = false

[dependencies]
anyhow = "1"
rust_decimal = { version = "=1.43.0", default-features = false, features = ["std"] }
serde_json = "1"

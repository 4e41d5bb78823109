[package]
name = "snapmail"
version = "0.1.0"
edition = "2021"
publish = false

[dependencies]
multihash = "=0.8.0"
rust-base58 = "=0.0.4"
serde = { version = "1", features = ["derive"] }
serde_json = "1"
chrono = "0.4"
holochain_json_derive = "*"

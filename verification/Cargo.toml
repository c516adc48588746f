[package]
name = "rusty_wallet"
version = "0.1.0"
edition = "2021"
publish = false

[dependencies]
secp256k1 = "0.29"
rand = "0.8"
sha2 = "0.10"
hex = "0.4"
serde = { version = "1", features = ["derive"] }
serde_json = "1"
clap = { version = "4", features = ["derive"] }

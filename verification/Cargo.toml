[package]
name = "tron_index"
version = "0.1.0"
edition = "2021"
publish = false

[dependencies]
bs58 = "*"
sha2 = "*"
substreams = "*"

[dev-dependencies]
base64 = "*"

[package]
name = "zaddr_kit"
version = "0.1.0"
edition = "2021"
publish = false

[dependencies]
zcash_address = "=0.13.0"
zcash_protocol = "=0.10.6"
bech32 = "=0.11.1"
bs58 = { version = "=0.5.1", features = ["check"] }
serde = { version = "=1.0.229", features = ["derive"] }
serde-wasm-bindgen = "=0.6.5"
wasm-bindgen = "=0.2.129"

[dev-dependencies]
f4jumble = "=0.1.2"

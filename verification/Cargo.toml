[package]
name = "runtime_metadata"
version = "0.1.0"
edition = "2021"
publish = false

[dependencies]
frame-metadata = "=15.2.0"
scale-info = "=2.11.6"
parity-scale-codec = "=3.7.5"
bip39 = { version = "=3.0.0", features = ["rand"] }
pbkdf2 = "=0.13.0"
hmac = "=0.13.0"
sha2 = "=0.11.0"
schnorrkel = "=0.11.5"
blake2-rfc = "=0.2.18"
base58 = "=0.2.0"
ss58-registry = "=1.51.0"
sp-core-hashing = "=16.0.0"
serde = { version = "1", features = ["derive"] }
wasm-bindgen = "=0.2.129"
serde-wasm-bindgen = "=0.6.5"

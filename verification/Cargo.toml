[package]
name = "traceable_address"
version = "0.1.0"
edition = "2021"
publish = false

[dependencies]
zcash_address = "=0.3.2"
wasm-bindgen = "=0.2.129"

[package]
name = "blake3_xof"
version = "0.1.0"
edition = "2021"
publish = false

[dependencies]
blake3 = "*"
wasm-bindgen = "*"
js-sys = "*"

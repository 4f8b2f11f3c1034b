[package]
name = "tap_reward"
version = "0.1.0"
edition = "2021"
publish = false

[dependencies]
sha3 = "0.10"
hex = "0.4"
serde = { version = "1", features = ["derive"] }
wasm-bindgen = "0.2"
serde-wasm-bindgen = "0.6"

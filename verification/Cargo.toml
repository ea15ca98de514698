[package]
name = "liquid_swaps"
version = "0.1.0"
edition = "2021"
publish = false

[dependencies]
bitcoin = { version = "=0.32.102", features = ["rand-std"] }
elements = "=0.25.3"
hex = "=0.4.3"
secp256k1 = { version = "=0.33.1", features = ["rand"] }
log = "=0.4.35"
env_logger = "=0.11.11"
tokio = { version = "=1.54.1", features = ["time"] }
js-sys = "0.3"
web-sys = { version = "0.3", features = ["Window"] }
wasm-bindgen-futures = "0.4"

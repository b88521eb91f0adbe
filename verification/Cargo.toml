[package]
name = "fleet_battle"
version = "0.1.0"
edition = "2021"
publish = false

[dependencies]
itertools = "0.14"
log = "0.4"
rand = "0.9"
serde = { version = "1", features = ["derive"] }
serde-wasm-bindgen = "0.6"
wasm-bindgen = "0.2"
wasm-logger = "0.2"

[package]
name = "driver_adapters"
version = "0.1.0"
edition = "2021"
publish = false

[dependencies]
serde = { version = "*", features = ["derive"] }
serde_json = "*"
futures = "*"
metrics = "*"
wasm-bindgen = "*"
js-sys = "*"

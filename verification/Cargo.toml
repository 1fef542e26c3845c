[package]
name = "akasha"
version = "0.1.0"
edition = "2021"
publish = false

[dependencies]
ed25519-dalek = "=1.0.1"
hex = "=0.4.3"
serde = { version = "=1.0.229", features = ["derive"] }
serde_json = "=1.0.154"
worker = "=0.0.24"
web-sys = "=0.3.69"
js-sys = "=0.3.69"
wasm-bindgen = "=0.2.92"
ndarray = "=0.15.6"
reqwest = { version = "=0.11.27", default-features = false }
async-trait = "=0.1.92"
cfg-if = "=1.0.5"
console_error_panic_hook = "=0.1.7"

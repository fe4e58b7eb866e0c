[package]
name = "chip_8_wasm"
version = "0.1.0"
edition = "2021"
publish = false

[dependencies]
wasm-bindgen = "0.2"
web-sys = { version = "0.3", features = ["console", "Window", "Crypto"] }
console_error_panic_hook = "0.1"
wee_alloc = "0.4"

[package]
name = "p2pio"
version = "0.1.0"
edition = "2021"
publish = false

[dependencies]
wasm-bindgen = "*"
js-sys = "*"
wasm-bindgen-futures = "*"
log = "*"
console_log = "*"
console_error_panic_hook = "*"

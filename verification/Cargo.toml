[package]
name = "promise_bridge"
version = "0.1.0"
edition = "2021"
publish = false

[dependencies]
console_error_panic_hook = "0.1"
failure = "0.1"
futures = "0.1"
js-sys = "0.3"
parity-wasm = "0.45"
rouille = "3"
wasm-bindgen = "0.2"
wasm-bindgen-cli-support = "0.2"

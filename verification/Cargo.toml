[package]
name = "wasm_logger"
version = "0.2.0"
edition = "2021"
publish = false

[dependencies]
chrono = "*"
log = { version = "*", features = ["std"] }
wasm-bindgen = "*"
js-sys = "*"
web-sys = { version = "*", features = ["console"] }

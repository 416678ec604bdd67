[package]
name = "rand_os"
version = "0.1.0"
edition = "2021"
publish = false

[dependencies]
rand_core = { version = "0.4", features = ["std"] }
wasm-bindgen = "0.2"

[package]
name = "frontend"
version = "0.1.0"
edition = "2021"
publish = false

[dependencies]
seed = "0.10"
wasm-bindgen = "0.2"
syn = { version = "2", features = ["full"] }
quote = "1"
proc-macro2 = "1"

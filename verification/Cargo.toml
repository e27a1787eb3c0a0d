[package]
name = "yew-more-hooks"
version = "0.1.0"
edition = "2021"
publish = false

[dependencies]
gloo-utils = { version = "0.2", features = ["serde"] }
serde = "1"
wasm-bindgen = "0.2"
wasm-bindgen-futures = "0.4"
web-sys = { version = "0.3", features = ["History", "Window"] }
yew = { version = "0.21", features = ["csr"] }
yew-hooks = "0.3"

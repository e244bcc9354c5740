[package]
name = "record_exchange"
version = "0.1.0"
edition = "2021"
publish = false

[dependencies]
serde_json = { version = "1", features = ["preserve_order"] }
axum = "0.6"
yew = "0.20"
gloo-net = "0.2"
wasm-bindgen-futures = "0.4"

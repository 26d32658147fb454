[package]
name = "dioxus_websocket_hooks"
version = "0.1.0"
edition = "2021"
publish = false

[dependencies]
dioxus = { version = "0.4", default-features = false }
log = "0.4"
serde = "1"
serde_json = "1"
wasm-bindgen = "0.2"
wasm-sockets = "1"
web-sys = { version = "0.3", features = ["console"] }

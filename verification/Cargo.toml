[package]
name = "derp_network"
version = "0.1.0"
edition = "2021"
publish = false

[dependencies]
aes-gcm = "0.10"
base64 = "0.21"
bincode = "1.3"
getrandom = "0.2"
hmac = "0.12"
sha2 = "0.10"
miniz_oxide = "0.7"
uuid = { version = "1", features = ["v4"] }
serde = { version = "1", features = ["derive"] }
wasm-bindgen = "0.2"
js-sys = "0.3"
serde-wasm-bindgen = "0.6"
web-sys = { version = "0.3", features = ["WebSocket", "BinaryType", "MessageEvent", "CloseEvent", "ErrorEvent", "Window", "console"] }

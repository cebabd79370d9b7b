[package]
name = "zeta2"
version = "0.1.0"
edition = "2021"
publish = false

[dependencies]
serde_json = "1"
uuid = { version = "1", features = ["v4"] }
chrono = "0.4"
hex = "0.4"
ed25519-dalek = "2"
getrandom = "0.2"
serde = { version = "1", features = ["derive"] }
tokio = { version = "1", features = ["full"] }
warp = "0.3"
libp2p = { version = "0.53", features = ["tokio", "gossipsub", "mdns", "noise", "ping", "identify", "kad", "tcp", "yamux", "macros"] }
tracing = "0.1"
tracing-subscriber = "0.3"
wasm-bindgen = "0.2"
js-sys = "0.3"
web-sys = { version = "0.3", features = ["WebSocket", "MessageEvent", "BinaryType", "Window", "Storage", "console"] }
serde-wasm-bindgen = "0.6"
console_error_panic_hook = "0.1"
tracing-wasm = "0.2"

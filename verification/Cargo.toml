[package]
name = "zks_wire"
version = "0.1.0"
edition = "2021"
publish = false

[dependencies]
base64 = "=0.22.1"
futures-util = { version = "=0.3.34", features = ["sink"] }
js-sys = "0.3"
libp2p = { version = "0.53", features = ["dcutr", "macros", "noise", "ping", "relay", "tcp", "tokio", "yamux"] }
rand = "=0.8.8"
serde = { version = "=1.0.229", features = ["derive"] }
serde_json = "=1.0.154"
thiserror = "=1.0.69"
tokio = { version = "=1.54.1", features = ["macros", "net", "rt", "sync", "time"] }
tokio-tungstenite = "=0.24.0"
tracing = "=0.1.44"
uuid = { version = "=1.29.0", features = ["v4"] }
wasm-bindgen = "0.2"
wasm-bindgen-futures = "0.4"
web-sys = { version = "0.3", features = ["BinaryType", "CloseEvent", "ErrorEvent", "MessageEvent", "WebSocket", "Window", "console"] }

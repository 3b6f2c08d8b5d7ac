[package]
name = "drawdoc"
version = "0.1.0"
edition = "2021"
publish = false

[dependencies]
itertools = "*"
serde = { version = "1", features = ["derive"] }
serde_json = "1"
wasm-bindgen = "0.2"
js-sys = "0.3"
web-sys = { version = "0.3", features = ["Document", "Element", "Node", "SvgElement", "Window"] }
gloo-utils = { version = "*", features = ["serde"] }
serde-wasm-bindgen = "*"
tokio = { version = "1", features = ["rt-multi-thread", "macros", "net", "sync", "io-util", "io-std"] }
tokio-tungstenite = "*"
futures-util = "*"
futures-channel = "*"
log = "0.4"
env_logger = "*"

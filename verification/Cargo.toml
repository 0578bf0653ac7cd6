[package]
name = "yewchat"
version = "0.1.0"
edition = "2021"
publish = false

[dependencies]
log = "=0.4.34"
serde_json = "=1.0.154"
wasm-bindgen = "=0.2.129"
web-sys = { version = "=0.3.106", features = ["HtmlInputElement", "MessageEvent", "WebSocket"] }
yew = "=0.19.3"
yew-agent = "=0.1.0"

[package]
name = "chat_client"
version = "0.1.0"
edition = "2021"
publish = false

[dependencies]
chrono = { version = "0.4", features = ["serde"] }
urlencoding = "2"
rand = "0.9"
serde = { version = "1", features = ["derive"] }
serde_json = "1"
gloo = "0.11"
log = "0.4"
wasm-logger = "0.2"
wasm-bindgen = "0.2"
wasm-bindgen-futures = "0.4"
web-sys = { version = "0.3", features = ["Storage", "Window", "Document", "Element", "HtmlElement", "HtmlInputElement", "HtmlTextAreaElement", "DomTokenList", "Location"] }
yew = { version = "0.21", features = ["csr"] }
yew-router = "0.18"

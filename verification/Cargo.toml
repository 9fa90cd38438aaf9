[package]
name = "opt_out_desk"
version = "0.1.0"
edition = "2021"
publish = false

[dependencies]
urlencoding = "2"
serde = { version = "1", features = ["derive"] }
serde_json = "1"
leptos = { version = "0.8", features = ["csr"] }
leptos_router = "0.8"
js-sys = "0.3"
wasm-bindgen = "0.2"
console_error_panic_hook = "0.1"
web-sys = { version = "0.3", features = ["Window", "Document", "Storage", "Element", "HtmlElement", "HtmlAnchorElement", "Location", "Navigator", "Clipboard"] }

[package]
name = "chinchilib"
version = "0.1.0"
edition = "2021"
publish = false

[dependencies]
log = "0.4"
pixels = "0.15"
rgb = "0.8"
winit = "0.30"
web-time = "1"
wasm-bindgen = "0.2"
wasm-bindgen-futures = "0.4"
web-sys = { version = "0.3", features = ["Window", "Document", "Element", "HtmlElement", "HtmlCanvasElement", "CssStyleDeclaration"] }

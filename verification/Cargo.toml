[package]
name = "vizia_scene"
version = "0.1.0"
edition = "2021"
publish = false

[dependencies]
bitflags = "=1.3.2"
femtovg = { version = "=0.3.7", default-features = false }
glutin = "=0.29.1"
winit = "=0.27.5"
wasm-bindgen = "=0.2.129"
web-sys = { version = "=0.3.106", features = ["Window", "Document", "Element", "HtmlElement", "HtmlCanvasElement"] }

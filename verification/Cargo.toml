[package]
name = "paddle"
version = "0.1.0"
edition = "2021"
publish = false

[dependencies]
nuts = "*"
div = "*"
wasm-bindgen = "0.2"
wasm-bindgen-futures = "0.4"
js-sys = "0.3"
web-sys = { version = "0.3", features = ["Document", "Element", "HtmlCanvasElement", "HtmlElement", "HtmlImageElement", "Node", "WebGlRenderingContext", "WebGlTexture", "Window"] }

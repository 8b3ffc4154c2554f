[package]
name = "chip_8_lib"
version = "0.1.0"
edition = "2021"
publish = false

[dependencies]
wasm-bindgen = "0.2"
js-sys = "0.3"
console_error_panic_hook = "0.1"
wee_alloc = "0.4"
web-sys = { version = "0.3", features = ["console", "Window", "Document", "Element", "CanvasRenderingContext2d", "ImageData"] }

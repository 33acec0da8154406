[package]
name = "lab03"
version = "0.1.0"
edition = "2021"
publish = false

[dependencies]
bytemuck = { version = "=1.25.2", features = ["derive"] }
glam = "=0.33.12"
wgpu = "=29.0.4"
winit = "=0.30.13"
pollster = "=1.0.1"
log = "=0.4.35"
console_log = "=1.1.0"
console_error_panic_hook = "=0.1.7"
wasm-bindgen = "=0.2.130"
wasm-bindgen-futures = "=0.4.80"
web-sys = { version = "=0.3.107", features = ["Window", "Document", "Element", "Node", "HtmlElement", "HtmlCanvasElement"] }

[package]
name = "sycadrop"
version = "0.1.0"
edition = "2021"
publish = false

[dependencies]
console_error_panic_hook = "0.1"
console_log = "*"
log = "0.4"
serde = { version = "1", features = ["derive"] }
serde_json = "1"
sycamore = "0.8"
wasm-bindgen = "0.2"
web-sys = { version = "0.3", features = [
    "DataTransfer",
    "Document",
    "DragEvent",
    "Element",
    "Event",
    "EventTarget",
    "HtmlElement",
    "HtmlImageElement",
    "MouseEvent",
    "Node",
    "Window",
] }

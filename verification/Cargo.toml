[package]
name = "easel"
version = "0.1.0"
edition = "2021"
publish = false

[dependencies]
rk-primes = "*"
wasm-bindgen = "*"
js-sys = "*"
console_error_panic_hook = "*"

[dependencies.web-sys]
version = "*"
features = [
    "CanvasRenderingContext2d",
    "Document",
    "Element",
    "EventTarget",
    "HtmlCanvasElement",
    "HtmlElement",
    "KeyboardEvent",
    "Node",
    "Performance",
    "Window",
    "console",
]

[package]
name = "logic_quiz"
version = "0.1.0"
edition = "2021"
publish = false

[dependencies]
wasm-bindgen = "*"
console_error_panic_hook = "*"
web-sys = { version = "*", features = ["Window", "Document", "Element", "HtmlElement", "HtmlDivElement", "HtmlButtonElement", "HtmlBrElement", "HtmlInputElement", "HtmlLabelElement", "Storage", "Event", "EventTarget", "Node"] }

[package]
name = "ybc"
version = "0.1.0"
edition = "2021"
publish = false

[dependencies]
derive_more = "0.99"
web-sys = { version = "0.3", features = ["Event", "EventTarget", "HtmlInputElement", "MouseEvent"] }
yew = "0.18"
yewtil = "0.4"

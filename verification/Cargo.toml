[package]
name = "impulse_client_kit"
version = "0.1.0"
edition = "2021"
publish = false

[dependencies]
leptos = "0.8"
web-sys = { version = "0.3.82", features = ["DomRect", "Element", "HtmlElement", "HtmlDivElement", "MouseEvent", "Window"] }

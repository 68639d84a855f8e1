[package]
name = "yew_form"
version = "0.1.0"
edition = "2021"
publish = false

[dependencies]
yew = { version = "0.17", features = ["web_sys"] }
yew-state = "*"
js-sys = "0.3"
web-sys = { version = "0.3", features = ["Blob", "Element", "Event", "EventInit", "EventTarget", "File", "FileList", "FocusEvent", "FocusEventInit", "HtmlElement", "HtmlSelectElement", "Node", "Window"] }

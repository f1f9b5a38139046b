[package]
name = "camera_trace"
version = "0.1.0"
edition = "2021"
publish = false

[dependencies]
wasm-bindgen = "0.2"
wasm-bindgen-futures = "0.4"
js-sys = "0.3"
serde = { version = "1", features = ["derive"] }
serde_json = "1"
yew = { version = "0.21", features = ["csr"] }
web-sys = { version = "0.3", features = ["Window", "Navigator", "MediaDevices", "MediaStream", "MediaStreamConstraints", "Storage", "Event", "EventTarget", "Element", "File", "FileList", "HtmlElement", "HtmlInputElement", "HtmlMediaElement", "HtmlVideoElement", "InputEvent", "KeyboardEvent", "MouseEvent", "PointerEvent", "TouchEvent", "TouchList", "Touch"] }

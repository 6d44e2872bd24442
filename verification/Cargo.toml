[package]
name = "ffchess_client"
version = "0.1.0"
edition = "2021"
publish = false

[dependencies]
uuid = { version = "1", features = ["v4", "js"] }
chrono = "0.4"
serde = { version = "1", features = ["derive"] }
serde_json = "1"
glam = "*"
yew = { version = "0.21", features = ["csr"] }
web-sys = { version = "0.3", features = ["Window", "Document", "Storage", "Location", "Navigator", "Element", "HtmlElement", "HtmlHeadElement", "HtmlCanvasElement", "HtmlInputElement", "CanvasRenderingContext2d", "DomRect", "EventTarget", "KeyboardEvent", "MouseEvent", "TouchEvent", "TouchList", "Touch", "WheelEvent", "Performance", "console", "HtmlImageElement", "CanvasGradient"] }
js-sys = "0.3"
wasm-bindgen = "0.2"
wasm-bindgen-futures = "0.4"
gloo-timers = "0.3"
gloo-events = "0.2"
gloo-net = "0.6"
gloo-utils = "0.2"
gloo-render = "0.2"
futures-util = "0.3"
tokio = { version = "1", features = ["sync"] }
educe = "*"

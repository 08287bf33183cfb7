[package]
name = "impulse_client_kit"
version = "0.1.0"
edition = "2021"
publish = false

[dependencies]
chrono = { version = "0.4", features = ["clock"] }
uuid = { version = "1", features = ["v4", "js"] }
leptos = { version = "0.8", features = ["csr"] }
leptos-use = "0.16"
codee = "0.3"
web-sys = { version = "0.3", features = ["Window", "Document", "Location", "History", "Element", "HtmlElement", "HtmlDocument", "HtmlInputElement", "HtmlSelectElement", "HtmlTextAreaElement", "HtmlDivElement", "HtmlButtonElement", "CssStyleDeclaration", "DomRect", "DomTokenList", "Event", "EventTarget", "KeyboardEvent", "MouseEvent", "PointerEvent", "DragEvent", "PageTransitionEvent", "MessageEvent", "CloseEvent", "WebSocket", "BinaryType", "Navigator", "Blob", "BlobPropertyBag", "IntersectionObserver", "IntersectionObserverEntry", "Performance", "NodeList", "Node", "Clipboard", "CssStyleSheet", "HtmlStyleElement", "HtmlHeadElement"] }
js-sys = "0.3"
wasm-bindgen = "0.2"
wasm-bindgen-futures = "0.4"
log = "0.4"
serde = { version = "1", features = ["derive"] }
rmp-serde = "1"
serde-wasm-bindgen = "0.6"
console_error_panic_hook = "0.1"
console_log = "1"
jni = "0.21"
ndk-context = "0.1"

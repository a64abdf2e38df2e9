[package]
name = "webtransport_client"
version = "0.1.0"
edition = "2021"
publish = false

[dependencies]
anyhow = "1"
bytes = "1"
closure = "0.3"
flume = "0.10"
futures = "0.3"
js-sys = "0.3"
parking_lot = "0.12"
scopeguard = "1"
thiserror = "1"
tokio = { version = "1", features = ["macros"] }
tracing = "0.1"
tracing-subscriber = { version = "0.3", features = ["time"] }
tracing-web = "0.1"
url = "2"
wasm-bindgen = "0.2"
wasm-bindgen-futures = "0.4"
web-sys = { version = "0.3", features = ["Event", "EventTarget", "HtmlInputElement", "ReadableStream", "ReadableStreamDefaultReader", "WebTransport", "WebTransportBidirectionalStream", "WebTransportDatagramDuplexStream", "WritableStream", "WritableStreamDefaultWriter"] }
yew = { version = "0.20", features = ["csr"] }

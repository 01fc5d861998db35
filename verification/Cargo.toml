[package]
name = "wasm_sockets"
version = "0.1.0"
edition = "2021"
publish = false

[dependencies]
js-sys = "0.3"
log = "0.4"
thiserror = "1"
wasm-bindgen = "0.2"
web-sys = { version = "0.3", features = ["WebSocket", "BinaryType", "ErrorEvent", "MessageEvent", "Blob", "FileReader", "ProgressEvent"] }

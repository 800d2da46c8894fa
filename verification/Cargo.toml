[package]
name = "typing_library"
version = "0.1.0"
edition = "2021"
publish = false

[dependencies]
typing_engine = "=0.5.0"
serde = { version = "=1.0.229", features = ["derive"] }
serde-wasm-bindgen = "=0.6.5"
tsify = { version = "=0.5.8", features = ["js"] }
wasm-bindgen = "=0.2.129"
wasm-bindgen-futures = "=0.4.79"
web-sys = { version = "=0.3.106", features = ["Window", "Response", "console", "ImageData"] }
futures = "=0.3.34"
tokio = { version = "=1.53.2", features = ["sync"] }

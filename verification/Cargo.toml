[package]
name = "librarian"
version = "0.1.0"
edition = "2021"
publish = false

[dependencies]
rand = "=0.8.8"
urlencoding = "=2.1.3"
serde = { version = "=1.0.229", features = ["derive"] }
serde_json = "=1.0.154"
serde_qs = "=0.12.0"
chrono = "=0.4.45"
wasm-bindgen = "=0.2.130"
wasm-bindgen-futures = "0.4"
js-sys = "=0.3.107"
web-sys = { version = "=0.3.107", features = ["Window", "Location", "UrlSearchParams", "Headers", "Request", "RequestInit", "RequestMode", "Response"] }

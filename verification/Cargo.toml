[package]
name = "reddit_search"
version = "0.1.0"
edition = "2021"
publish = false

[dependencies]
chrono = { version = "=0.4.45", default-features = false, features = ["std"] }
console_error_panic_hook = "=0.1.7"
log = "=0.4.34"
percent-encoding = "=2.3.2"
serde = { version = "=1.0.229", features = ["derive"] }
serde_derive = "=1.0.229"
serde_json = "=1.0.154"
strum = "=0.28.0"
strum_macros = "=0.28.0"
wasm-bindgen = "=0.2.129"
web_logger = "=0.2.0"
yew = "=0.12.0"

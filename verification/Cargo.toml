[package]
name = "arena_bot"
version = "0.1.0"
edition = "2021"
publish = false

[dependencies]
eyre = "*"
js-sys = "*"
log = "*"
serde = { version = "*", features = ["derive"] }
serde_json = "*"
thiserror = "*"
wasm-bindgen = "*"
web-sys = { version = "*", features = ["console"] }

[package]
name = "shaderfront"
version = "0.1.0"
edition = "2021"
publish = false

[dependencies]
colored = "*"
tokio = { version = "*", default-features = false, features = ["sync"] }
unicode-xid = "*"
wasm-bindgen = "*"

[dev-dependencies]
rand = "*"

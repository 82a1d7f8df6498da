[package]
name = "metaballs"
version = "0.1.0"
edition = "2021"
publish = false

[dependencies]
wasm-bindgen = { version = "0.2", features = ["serde-serialize"] }
js-sys = "0.3"
serde = { version = "1", features = ["derive"] }
wee_alloc = "0.4"

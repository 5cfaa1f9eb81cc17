[package]
name = "typed_array"
version = "0.2.0"
edition = "2021"
publish = false

[dependencies]
err-derive = "*"
js-sys = "*"
wasm-bindgen = "*"

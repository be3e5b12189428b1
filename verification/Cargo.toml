[package]
name = "kn_editor_core"
version = "0.1.0"
edition = "2021"
publish = false

[dependencies]
ropey = "=1.6.1"
wasm-bindgen = "=0.2.92"

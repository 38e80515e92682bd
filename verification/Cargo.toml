[package]
name = "seelen_ui"
version = "0.1.0"
edition = "2021"
publish = false

[dependencies]
itertools = "*"
lazy_static = "*"
tauri = { version = "*", default-features = false }

[package]
name = "floatbar"
version = "0.1.0"
edition = "2021"
publish = false

[dependencies]
tauri = { version = "2", default-features = false, features = ["wry"] }
tokio = { version = "1", features = ["time"] }
raw-window-handle = "0.6"

[package]
name = "awake_toggle"
version = "0.1.0"
edition = "2021"
publish = false

[dependencies]
tauri-utils = "2"

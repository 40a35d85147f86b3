[package]
name = "app_shell"
version = "0.1.0"
edition = "2021"
publish = false

[dependencies]
log = "=0.4.34"
tauri = { version = "=2.12.5", default-features = false, features = ["wry"] }
tauri-plugin-fs = "=2.7.1"
tauri-plugin-http = { version = "2", default-features = false }

[package]
name = "go_magic_desktop"
version = "0.1.0"
edition = "2021"
publish = false

[dependencies]
log = "0.4"
open = "5"
serde = { version = "1", features = ["derive"] }
serde_json = "1"
tauri = { version = "2", default-features = false, features = ["wry"] }
tauri-plugin-dialog = { version = "2", default-features = false }
url = "2"

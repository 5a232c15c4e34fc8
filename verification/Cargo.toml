[package]
name = "app_activation"
version = "0.1.0"
edition = "2021"
publish = false

[dependencies]
serde = { version = "1", features = ["derive"] }
url = "2"
tauri = { version = "2", default-features = false }
tauri-plugin-deep-link = { version = "2", default-features = false }

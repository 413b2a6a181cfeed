[package]
name = "tabbed_web_app"
version = "0.1.0"
edition = "2021"
publish = false

[dependencies]
global-hotkey = "0.7"
objc = "0.2"
serde = { version = "1", features = ["derive"] }
serde_json = "1"
url = "2"

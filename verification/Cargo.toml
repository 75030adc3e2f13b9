[package]
name = "hotkey_translate"
version = "0.1.0"
edition = "2021"
publish = false

[dependencies]
md5 = "=0.7.0"
serde = { version = "=1.0.229", features = ["derive"] }
serde_json = "=1.0.154"
reqwest = { version = "0.12", features = ["blocking", "json"] }
arboard = { version = "3", default-features = false }
enigo = "*"
global-hotkey = "*"

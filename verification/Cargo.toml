[package]
name = "db_toolkit_shell"
version = "0.1.0"
edition = "2021"
publish = false

[dependencies]
log = "*"
opener = "*"
serde_json = "*"
tauri = { version = "*", default-features = false }

[package]
name = "joyshop"
version = "0.1.0"
edition = "2021"
publish = false

[dependencies]
win_key_codes = "*"
crossbeam-channel = "*"
once_cell = "*"
serde = { version = "*", features = ["derive"] }
serde_json = "*"
winapi = { version = "0.3", features = ["winuser", "wingdi", "windef", "minwindef"] }
joycon-rs = "*"

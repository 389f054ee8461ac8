[package]
name = "wideboi"
version = "0.4.2"
edition = "2021"
publish = false

[dependencies]
crossbeam-channel = "0.5"
dirs = "5"
gtk = "0.18"
parking_lot = "0.12"
raw-window-handle = "0.6"
serde = { version = "1", features = ["derive"] }
serde_json = "1"
windows-sys = { version = "0.52", features = ["Win32_Foundation", "Win32_UI_Input_KeyboardAndMouse"] }
wry = "0.46"

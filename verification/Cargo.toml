[package]
name = "pendant_watch"
version = "0.1.0"
edition = "2021"
publish = false

[dependencies]
regex = "=1.13.1"
crossterm = "=0.29.0"
serialport = { version = "=4.10.1", default-features = false }
windows = { version = "=0.59.0", features = ["Win32_Foundation", "Win32_UI_Input_KeyboardAndMouse"] }

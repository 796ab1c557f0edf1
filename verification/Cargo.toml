[package]
name = "registry"
version = "0.1.0"
edition = "2021"
publish = false

[dependencies]
utfx = "*"
winapi = { version = "0.3", features = ["minwindef", "winreg", "winerror", "winnt"] }

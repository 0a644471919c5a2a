[package]
name = "native-windows-gui"
version = "0.1.0"
edition = "2021"
publish = false

[dependencies]
winapi = { version = "0.3.9", features = ["minwindef", "windef", "wingdi", "winnt", "winuser"] }

[package]
name = "resw"
version = "0.1.0"
edition = "2021"

[dependencies]
embed-resource = "1"
winapi = { version = "0.3", features = ["minwindef", "ntdef", "winuser", "wingdi"] }

[package]
name = "break_reminder"
version = "0.1.0"
edition = "2021"
publish = false

[dependencies]
urlencoding = "2"
serde = { version = "1", features = ["derive"] }
serde_json = "1"
sysinfo = { version = "0.30", default-features = false }
enigo = "0.1"
winapi = { version = "0.3", features = ["winuser", "windef", "minwindef"] }

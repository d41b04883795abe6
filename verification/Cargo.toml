[package]
name = "system_monitor"
version = "0.1.0"
edition = "2021"
publish = false

[dependencies]
chrono = { version = "0.4", default-features = false, features = ["clock"] }
notify-rust = "4"
rusqlite = { version = "0.31", features = ["bundled"] }
sysinfo = "0.33"
winreg = "0.52"

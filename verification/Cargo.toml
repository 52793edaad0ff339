[package]
name = "repeatable"
version = "0.1.0"
edition = "2021"
publish = false

[dependencies]
uuid = { version = "=1.29.0", features = ["v4"] }
serde = { version = "=1.0.229", features = ["derive"] }
serde_json = "=1.0.154"
tokio = { version = "=1.54.1", features = ["rt-multi-thread", "sync", "time", "macros"] }
dirs = "=5.0.1"
enigo = "=0.2.1"
rdev = "=0.5.3"
windows = { version = "=0.56.0", features = ["Win32_Foundation", "Win32_UI_WindowsAndMessaging"] }

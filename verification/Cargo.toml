[package]
name = "autolight"
version = "0.1.0"
edition = "2021"
publish = false

[dependencies]
chrono = "0.4"
ctrlc = "3"
hotwatch = "0.4"
serde = { version = "1", features = ["derive"] }
sunrise = "1"
toml = "0.5"
win32_notification = "*"
windows = { version = "0.44", features = ["Win32_Foundation", "Win32_Security", "Win32_System_Registry", "Win32_System_Threading", "Win32_UI_WindowsAndMessaging"] }

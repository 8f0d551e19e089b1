[package]
name = "desktop_settings"
version = "0.1.0"
edition = "2021"
publish = false

[dependencies]
futures = { version = "0.3", default-features = false, features = ["executor"] }
windows = { version = "*", features = ["Win32_Foundation", "Win32_System_Registry", "Win32_UI_WindowsAndMessaging", "Storage", "System_UserProfile"] }

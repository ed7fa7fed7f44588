[package]
name = "icon_overlay"
version = "0.1.0"
edition = "2021"
publish = false

[dependencies]
anyhow = "=1.0.104"
prost = "=0.14.4"
tokio = { version = "=1.53.2", features = ["rt"] }
tonic = "=0.14.6"
windows = { version = "=0.58.0", features = ["Win32_Foundation", "Win32_System_Com", "Win32_System_LibraryLoader", "Win32_UI_Shell", "Win32_UI_WindowsAndMessaging", "implement"] }
windows-core = "=0.58.0"
winreg = "=0.56.0"

[package]
name = "winops"
version = "0.1.0"
edition = "2021"
publish = false

[dependencies]
image = "=0.25.10"
base64 = "=0.23.1"
windows = { version = "=0.58.0", features = ["Win32_Foundation", "Win32_Graphics_Gdi", "Win32_System_Threading", "Win32_UI_HiDpi", "Win32_UI_WindowsAndMessaging"] }
windows-native = "=1.0.44"

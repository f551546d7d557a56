[package]
name = "text_fixer"
version = "0.1.0"
edition = "2021"
publish = false

[dependencies]
image = { version = "=0.25.10", default-features = false, features = ["png"] }
anyhow = "=1.0.104"
arboard = "=3.7.0"
dotenvy = "=0.15.7"
libc = "=0.2.191"
objc2-app-kit = { version = "=0.3.2", features = ["NSRunningApplication"] }
rdev = "=0.5.3"
reqwest = { version = "=0.12.28", features = ["json"] }
serde = { version = "=1.0.229", features = ["derive"] }
windows = { version = "=0.62.2", features = ["Win32_Foundation", "Win32_System_Threading", "Win32_UI_WindowsAndMessaging", "Win32_Graphics_Gdi"] }
x-win = "=5.8.0"
x11rb = { version = "=0.13.2", features = ["allow-unsafe-code"] }

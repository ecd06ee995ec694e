[package]
name = "rs-ddraw"
version = "0.1.0"
edition = "2021"
publish = false

[dependencies]
png = "*"
image = { version = "0.25", default-features = false, features = ["png", "rayon"] }
num = "0.4"
rayon = "1"
windows = { version = "0.61", features = ["Win32_Foundation", "Win32_System_WindowsProgramming", "Win32_System_LibraryLoader", "Win32_System_Threading", "Win32_UI_WindowsAndMessaging", "Win32_Graphics_Gdi", "Win32_System_Registry", "Win32_System_SystemInformation"] }

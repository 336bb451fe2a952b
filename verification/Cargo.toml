[package]
name = "atai_paste"
version = "1.0.9"
edition = "2021"
publish = false

[dependencies]
sha2 = "0.10"
serde = { version = "1", features = ["derive"] }
serde_json = "1"
log = "0.4"
simplelog = "0.12"
tray-item = "0.10"
windows = { version = "0.58", features = ["Win32_Foundation", "Win32_UI_WindowsAndMessaging", "Win32_UI_Shell", "Win32_System_Threading", "Win32_UI_Input_KeyboardAndMouse", "Win32_System_LibraryLoader", "Win32_Networking_WinHttp", "Win32_System_Com"] }

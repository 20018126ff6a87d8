[package]
name = "keyboard_splitter"
version = "0.3.4"
edition = "2021"
publish = false

[dependencies]
serde = { version = "=1.0.229", features = ["derive"] }
serde_json = "=1.0.154"
log = "=0.4.35"
vigem-client = "=0.1.4"
windows = { version = "=0.61.3", features = ["Win32_Foundation", "Win32_UI_Input", "Win32_UI_WindowsAndMessaging", "Win32_System_LibraryLoader", "Win32_System_Diagnostics_Debug", "Win32_System_Threading", "Win32_Graphics_Gdi", "Win32_System_Kernel", "Win32_Storage_FileSystem"] }
tauri = { version = "2", default-features = false, features = ["tray-icon"] }

[package]
name = "brightwheel"
version = "0.1.0"
edition = "2021"
publish = false

[dependencies]
windows-sys = { version = "=0.61.2", features = ["Win32_Foundation", "Win32_Devices_Display", "Win32_Graphics_Gdi", "Win32_UI_WindowsAndMessaging", "Win32_System_Registry", "Win32_UI_Shell", "Win32_System_LibraryLoader", "Win32_UI_Input_KeyboardAndMouse", "Win32_System_Threading", "Win32_System_Console", "Win32_Security"] }

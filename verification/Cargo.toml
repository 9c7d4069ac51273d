[package]
name = "deskvolt"
version = "0.1.0"
edition = "2021"
publish = false

[dependencies]
hidapi = "2.6"
muda = "0.15"
tray-icon = "0.19"
windows = { version = "0.58", features = ["Win32_Foundation", "Win32_Graphics_Gdi", "Win32_Graphics_Dwm", "Win32_System_LibraryLoader", "Win32_UI_WindowsAndMessaging", "Win32_UI_Input_KeyboardAndMouse", "Win32_System_Com", "Win32_System_Diagnostics_ToolHelp", "Win32_System_Threading", "Win32_UI_HiDpi"] }

[package]
name = "uo_keyboard"
version = "0.1.0"
edition = "2021"
publish = false

[dependencies]
rupantor = "*"
windows = { version = "*", features = ["implement", "Win32_Foundation", "Win32_System_Com", "Win32_System_LibraryLoader", "Win32_System_SystemServices", "Win32_System_Threading", "Win32_System_Variant", "Win32_UI_Input_KeyboardAndMouse", "Win32_UI_TextServices"] }
windows-registry = "*"

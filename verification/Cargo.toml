[package]
name = "ime_shift_fix"
version = "0.1.0"
edition = "2021"
publish = false

[dependencies]
ctrlc = "=3.5.2"
windows-core = "=0.61.2"

[dependencies.windows]
version = "=0.61.3"
features = [
    "Win32_Foundation",
    "Win32_Security",
    "Win32_System_Environment",
    "Win32_System_LibraryLoader",
    "Win32_System_RemoteDesktop",
    "Win32_System_Services",
    "Win32_System_Threading",
    "Win32_UI_Input_KeyboardAndMouse",
    "Win32_UI_Shell",
    "Win32_UI_WindowsAndMessaging",
]

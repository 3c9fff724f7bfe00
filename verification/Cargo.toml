[package]
name = "input_mode_viewer"
version = "0.1.0"
edition = "2021"
publish = false

[dependencies]
image = { version = "=0.25.10", default-features = false, features = ["png"] }
anyhow = "=1.0.104"
serde = { version = "=1.0.229", features = ["derive"] }
toml = "=1.1.8"
tracing = "=0.1.44"
tracing-error = "=0.2.1"
tracing-subscriber = { version = "=0.3.23", default-features = false, features = ["fmt", "std", "registry"] }
arc-swap = "=1.9.3"
parking_lot = "=0.12.5"
directories = "=6.0.0"
notify = "=8.2.1"
check_elevation = "=0.3.0"
raw-window-handle = "=0.6.2"
winit = "=0.30.13"
tray-icon = "=0.26.1"
windows-core = "=0.61.2"
windows-numerics = "=0.2.0"
windows = { version = "=0.61.3", features = ["Foundation", "Foundation_Numerics", "System", "UI_Composition", "UI_Composition_Desktop", "Win32_Foundation", "Win32_Graphics_Gdi", "Win32_Graphics_Dwm", "Win32_Graphics_Direct2D", "Win32_Graphics_Direct2D_Common", "Win32_Graphics_Direct3D", "Win32_Graphics_Direct3D11", "Win32_Graphics_DirectWrite", "Win32_Graphics_Dxgi", "Win32_Graphics_Dxgi_Common", "Win32_System_Com", "Win32_System_Variant", "Win32_System_Threading", "Win32_System_LibraryLoader", "Win32_System_WinRT", "Win32_System_WinRT_Composition", "Win32_System_Diagnostics_ToolHelp", "Win32_System_TaskScheduler", "Win32_System_Ole", "Win32_UI_Accessibility", "Win32_UI_WindowsAndMessaging", "Win32_UI_HiDpi", "Win32_UI_Input", "Win32_UI_Input_Ime", "Win32_UI_Input_KeyboardAndMouse", "Win32_UI_Shell", "Win32_UI_Controls"] }

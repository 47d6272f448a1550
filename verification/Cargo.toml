[package]
name = "window_tracker"
version = "0.1.0"
edition = "2021"
publish = false

[dependencies]
bevy_math = "=0.20.0"
chrono = "=0.4.45"
color-eyre = "=0.6.5"
eyre = "=0.6.14"
tracing = "=0.1.44"
tracing-subscriber = "=0.3.23"
windows = { version = "=0.62.2", features = ["Win32_Foundation", "Win32_Graphics_Direct3D", "Win32_Graphics_Direct3D11", "Win32_Graphics_Dxgi", "Win32_Graphics_Dxgi_Common", "Win32_System_Threading", "Win32_UI_Accessibility", "Win32_UI_WindowsAndMessaging"] }

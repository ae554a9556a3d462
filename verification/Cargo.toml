[package]
name = "wintf"
version = "0.1.0"
edition = "2021"
publish = false

[dependencies]
bevy_ecs = "0.17"
bevy_tasks = "0.17"
bevy_utils = "0.17"
taffy = "*"
tracing = "0.1"
ambassador = "0.4"
windows-numerics = "*"
windows = { version = "*", features = ["Win32_Foundation", "Win32_UI_WindowsAndMessaging", "Win32_Graphics_Gdi"] }

[package]
name = "sunshine_helper"
version = "0.1.0"
edition = "2021"
publish = false

[dependencies]
windows = { version = "*", features = ["Win32_Devices_Display", "Win32_Foundation", "Win32_Graphics_Gdi", "Win32_UI_ColorSystem"] }
clap = { version = "*", features = ["derive"] }
log = "*"
env_logger = "*"
chrono = "*"

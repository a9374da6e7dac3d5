[package]
name = "dust_manip"
version = "0.1.0"
edition = "2021"
publish = false

[dependencies]
defer-rs = "*"
human-panic = "*"
image = { version = "*", default-features = false, features = ["png"] }
sdl3 = "*"
sdl3-sys = "*"
sdl3-ttf-sys = "*"
serde = { version = "*", features = ["derive"] }
serde_json = "*"
windows-sys = { version = "*", features = ["Win32_UI_WindowsAndMessaging", "Win32_Foundation"] }

[package]
name = "desktop_caster"
version = "0.1.0"
edition = "2021"
publish = false

[dependencies]
ashpd = { version = "=0.13.13", features = ["screencast"] }
godot = "=0.5.5"
pipewire = "=0.9.2"
tokio = { version = "=1.54.1", features = ["rt"] }
windows = { version = "=0.58.0", features = ["Win32_Foundation", "Win32_Graphics_Direct3D", "Win32_Graphics_Direct3D11", "Win32_Graphics_Dxgi", "Win32_Graphics_Dxgi_Common"] }
x11rb = "=0.14.0"

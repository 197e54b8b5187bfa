[package]
name = "jumper"
version = "0.1.0"
edition = "2021"
publish = false

[dependencies]
bevy = { version = "=0.5.0", default-features = false, features = ["bevy_wgpu", "bevy_winit", "render", "x11"] }
bevy_rapier2d = "=0.9.0"
futures-macro = "=0.3.21"

[package]
name = "snek"
version = "0.1.0"
edition = "2021"
publish = false

[dependencies]
rand = "0.8"
bevy = { version = "0.9", default-features = false, features = ["bevy_asset", "bevy_winit", "render", "x11"] }

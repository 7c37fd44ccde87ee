[package]
name = "webslinger"
version = "0.1.0"
edition = "2021"
publish = false

[dependencies]
bevy = { version = "0.8", default-features = false, features = ["bevy_winit", "render", "png", "x11"] }
bevy_rapier2d = "0.17"
serde = { version = "1", features = ["derive"] }
serde_json = "1"

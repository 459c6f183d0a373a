[package]
name = "store"
version = "0.1.0"
edition = "2021"
publish = false

[dependencies]
anyhow = "1"
bevy = { version = "0.8", default-features = false, features = ["bevy_asset", "bevy_winit", "render", "png", "x11"] }
bevy_renet = "0.0.5"
bincode = "1.3"
env_logger = "0.9"
log = "0.4"
renet = "0.0.9"
serde = { version = "1", features = ["derive"] }

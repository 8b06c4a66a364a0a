[package]
name = "bevy_ecs_tilemap"
version = "0.1.0"
edition = "2021"
publish = false

[dependencies]
bevy = { version = "0.16", default-features = false, features = ["std", "bevy_render", "bevy_color"] }
serde = { version = "1", features = ["derive"] }

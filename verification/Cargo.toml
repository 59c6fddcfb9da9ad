[package]
name = "bevy_fast_mist"
version = "0.1.0"
edition = "2021"
publish = false
rust-version = "1.95"

[dependencies]
bevy = { version = "=0.18.1", default-features = false, features = ["bevy_render", "bevy_core_pipeline", "bevy_sprite_render"] }
bytemuck = { version = "=1.25.2", features = ["derive"] }
noise-functions = "=0.8.5"

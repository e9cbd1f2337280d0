[package]
name = "tavern"
version = "0.1.0"
edition = "2021"
publish = false

[dependencies]
rand = "=0.8.8"
bevy = { version = "=0.17.3", default-features = false, features = ["std", "async_executor", "multi_threaded", "bevy_asset", "bevy_color", "bevy_core_pipeline", "bevy_render", "bevy_image", "bevy_camera", "bevy_sprite", "bevy_sprite_render", "bevy_text", "bevy_state", "bevy_window", "default_font", "png"] }

[package]
name = "art_scenes"
version = "0.1.0"
edition = "2021"
publish = false

[dependencies]
rand = "=0.9.5"
bevy = { version = "0.16", default-features = false, features = ["std", "bevy_asset", "bevy_color", "bevy_core_pipeline", "bevy_render", "bevy_state", "bevy_window"] }
bevy_vector_shapes = "0.10"
strum = "0.27"
strum_macros = "0.27"

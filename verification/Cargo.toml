[package]
name = "rover_drive"
version = "0.1.0"
edition = "2021"
publish = false

[dependencies]
bevy = { version = "0.10", default-features = false, features = ["bevy_asset", "bevy_core_pipeline", "bevy_pbr", "bevy_render", "bevy_winit", "png", "x11", "ktx2", "zstd", "tonemapping_luts"] }
bevy_rapier3d = "0.21"

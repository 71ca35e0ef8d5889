[package]
name = "space_shooter"
version = "0.1.0"
edition = "2021"
publish = false

[dependencies]
rand = "0.8"
bevy = { version = "0.17", default-features = false, features = ["std", "bevy_asset", "bevy_scene", "bevy_gltf", "bevy_pbr", "bevy_render", "bevy_core_pipeline", "bevy_ui", "bevy_text", "bevy_window"] }
bevy_rapier3d = { version = "0.32", default-features = false, features = ["dim3", "async-collider"] }

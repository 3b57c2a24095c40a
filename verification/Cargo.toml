[package]
name = "bevy_show_prepass"
version = "0.1.0"
edition = "2021"
publish = false

[dependencies]
bevy = { version = "0.17", default-features = false, features = ["std", "bevy_asset", "bevy_log", "bevy_render", "bevy_core_pipeline"] }

[package]
name = "craftoria"
version = "0.1.0"
edition = "2021"
publish = false

[dependencies]
bevy = { version = "0.15", default-features = false, features = ["bevy_asset", "bevy_color", "bevy_core_pipeline", "bevy_dev_tools", "bevy_pbr", "bevy_render", "bevy_text", "bevy_window"] }
cgmath = "=0.18.0"
noisy_bevy = "0.8"
rand = "=0.8.8"

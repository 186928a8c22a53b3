[package]
name = "aeiou"
version = "0.1.0"
edition = "2021"
publish = false

[dependencies]
bevy = { version = "0.8", default-features = false, features = ["bevy_asset", "bevy_winit", "bevy_render", "bevy_core_pipeline", "bevy_sprite", "png", "x11"] }
bevy_kira_audio = { version = "0.12", default-features = false, features = ["mp3"] }
bevy_asset_loader = { version = "0.13" }
bevy_embedded_assets = { version = "0.4" }

[package]
name = "game_screens"
version = "0.1.0"
edition = "2021"
publish = false

[dependencies]
bevy = { version = "0.16", default-features = false, features = ["std", "async_executor", "bevy_asset", "bevy_color", "bevy_core_pipeline", "bevy_picking", "bevy_render", "bevy_sprite", "bevy_state", "bevy_text", "bevy_ui", "bevy_ui_picking_backend", "bevy_window"] }

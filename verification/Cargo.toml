[package]
name = "tetris_clone"
version = "0.1.0"
edition = "2021"
publish = false

[dependencies]
rand = "=0.9.5"
rand_chacha = "=0.9.0"
bevy = { version = "=0.17.3", default-features = false, features = ["std", "async_executor", "bevy_color", "bevy_camera", "bevy_window", "bevy_sprite", "bevy_text", "bevy_ui", "bevy_log", "default_font"] }

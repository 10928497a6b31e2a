[package]
name = "ordo"
version = "0.1.0"
edition = "2021"
publish = false

[dependencies]
bevy = { version = "=0.19.1", default-features = false, features = ["std", "bevy_asset", "bevy_text", "bevy_ui", "bevy_ui_widgets", "bevy_picking", "ui_picking", "bevy_window", "bevy_log"] }
serde = { version = "=1.0.229", features = ["derive"] }
toml = "=0.9.8"

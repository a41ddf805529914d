[package]
name = "tunic"
version = "0.1.0"
edition = "2021"
publish = false

[dependencies]
bevy = { version = "=0.17.3", default-features = false, features = ["std", "bevy_asset", "bevy_color", "bevy_core_pipeline", "bevy_mesh_picking_backend", "bevy_pbr", "bevy_picking", "bevy_render", "bevy_scene", "bevy_image", "bevy_mesh", "bevy_camera", "bevy_light", "bevy_shader", "bevy_text", "bevy_ui", "bevy_ui_picking_backend", "bevy_ui_render", "bevy_window"] }
rfd = { version = "=0.17.2", default-features = false, features = ["xdg-portal"] }

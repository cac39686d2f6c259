[package]
name = "bevy_burn"
version = "0.4.0"
edition = "2021"
publish = false

[dependencies]
bevy = { version = "=0.19.1", default-features = false, features = ["std", "bevy_asset", "bevy_image", "bevy_render", "bevy_log"] }
burn-tensor = { version = "=0.21.0", default-features = false, features = ["std"] }
cubecl-wgpu = { version = "=0.10.0", default-features = false, features = ["std"] }
wgpu = { version = "=29.0.4", default-features = false }

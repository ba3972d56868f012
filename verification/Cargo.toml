[package]
name = "voxel_game"
version = "0.1.0"
edition = "2021"
publish = false

[dependencies]
bimap = "=0.6.3"
lz4 = "=1.28.1"
bincode = { version = "=2.0.1", features = ["serde"] }
serde = { version = "1", features = ["derive"] }
serde-big-array = "=0.5.1"
simdnoise = "=3.1.6"
futures-lite = "2"
local-ip-address = "0.6"
bevy = { version = "=0.15.1", default-features = false, features = ["bevy_asset", "bevy_color", "bevy_core_pipeline", "bevy_pbr", "bevy_render", "bevy_state", "bevy_window", "multi_threaded", "png"] }
bevy_renet = "=1.0.0"
renet = "=1.0.0"
renet_netcode = "=1.0.0"

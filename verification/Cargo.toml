[package]
name = "voxel_core"
version = "0.1.0"
edition = "2021"
publish = false

[dependencies]
fastrand = "=2.5.0"
fastnoise-lite = "=1.1.1"
bevy_math = "=0.19.1"
bevy_tasks = "=0.19.1"
log = "=0.4.34"
serde = { version = "=1.0.229", features = ["derive"] }
serde_json = "=1.0.151"
spacetimedb = "=1.12.0"

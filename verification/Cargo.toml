[package]
name = "bootleg_networking"
version = "0.1.0"
edition = "2021"
publish = false

[dependencies]
bincode = "=1.3.3"
dashmap = "=5.5.3"
parking_lot = "=0.11.2"
tokio = { version = "=1.54.1", features = ["full"] }
turbulence = "=0.3.0"
bevy_app = "=0.6.0"
bevy_ecs = "=0.6.1"
bevy_tasks = "=0.6.0"
bevy_networking_turbulence = "=0.4.1"

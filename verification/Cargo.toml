[package]
name = "jumpy"
version = "0.1.0"
edition = "2021"
publish = false

[dependencies]
bevy = { version = "=0.8.1", default-features = false }
bevy_renet = { version = "=0.0.5", default-features = false }
bones_asset = { version = "0.4", default-features = false }
bones_ecs = "=0.4.0"
bones_lib = { version = "=0.4.0", default-features = false }
egui = "=0.18.1"
postcard = { version = "=1.1.3", features = ["use-std"] }
renet_visualizer = "=0.0.2"
serde = { version = "=1.0.229", features = ["derive"] }
ulid = "=1.2.1"

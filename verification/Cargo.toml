[package]
name = "kataster"
version = "0.1.0"
edition = "2021"
publish = false

[dependencies]
bevy = { version = "=0.16.1", default-features = false, features = ["std", "bevy_state"] }
avian2d = { version = "0.3", default-features = false, features = ["2d", "f32", "parry-f32"] }
rand = "=0.8.8"

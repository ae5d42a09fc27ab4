[package]
name = "bevy_toolbox"
version = "0.1.0"
edition = "2021"
publish = false

[dependencies]
bevy = { version = "0.17", default-features = false, features = ["std", "bevy_pbr", "bevy_sprite"] }
mlua = { version = "0.11", features = ["luau"] }

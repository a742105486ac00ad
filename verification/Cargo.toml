[package]
name = "kinetic_ball"
version = "0.1.0"
edition = "2021"
publish = false

[dependencies]
serde = { version = "=1.0.229", features = ["derive"] }
ron = "=0.12.3"
dirs = "=7.0.0"
gilrs = "=0.11.2"
bevy = { version = "=0.17.3", default-features = false, features = ["bevy_color"] }

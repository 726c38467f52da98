[package]
name = "enhanced_input"
version = "0.1.0"
edition = "2021"
publish = false

[dependencies]
bevy = { version = "0.14", default-features = false }
bevy_egui = { version = "0.28", default-features = false }

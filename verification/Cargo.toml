[package]
name = "deorbiting"
version = "0.1.0"
edition = "2021"
publish = false

[dependencies]
bevy = { version = "0.17", default-features = false }
bevy_egui = { version = "0.37", default-features = false }
thiserror = "2"
wide = "0.7"

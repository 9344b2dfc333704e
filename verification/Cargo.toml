[package]
name = "starter_kit_fps"
version = "0.1.0"
edition = "2021"
publish = false

[dependencies]
godot = { version = "=0.1.3", features = ["experimental-godot-api"] }
rand = "=0.8.8"

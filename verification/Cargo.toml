[package]
name = "hotkey_launcher"
version = "0.1.0"
edition = "2021"
publish = false

[dependencies]
global-hotkey = "*"
winit = "*"
accessibility-sys = "*"
core-foundation-sys = "*"

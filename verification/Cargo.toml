[package]
name = "framesync"
version = "0.1.0"
edition = "2021"
publish = false

[dependencies]
anyhow = "*"
ash = "*"
ash-window = "*"
log = "*"
raw-window-handle = "*"
simplelog = "*"
winit = { version = "*", default-features = false, features = ["x11", "rwh_06"] }

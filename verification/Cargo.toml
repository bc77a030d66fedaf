[package]
name = "studio"
version = "0.1.0"
edition = "2021"
publish = false

[dependencies]
bytemuck = "1.25.2"
image = { version = "0.25.10", default-features = false, features = ["png"] }
eframe = { version = "0.37.0", default-features = false, features = ["wgpu", "default_fonts", "x11"] }
egui = "0.37.0"
egui_extras = { version = "0.37.0", default-features = false }
env_logger = { version = "0.11.11", default-features = false }
pollster = "1.0.1"
anyhow = "1.0.104"
rfd = { version = "*", default-features = false, features = ["xdg-portal", "tokio"] }

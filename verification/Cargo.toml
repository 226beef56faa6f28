[package]
name = "they"
version = "0.1.0"
edition = "2021"

[dependencies]
eframe = { version = "=0.36.2", default-features = false, features = ["default_fonts", "glow", "wayland", "x11"] }
egui_file = "=0.28.0"

[package]
name = "chonker3"
version = "0.1.0"
edition = "2021"
publish = false

[dependencies]
serde_json = "=1.0.151"
serde = { version = "=1.0.229", features = ["derive"] }
anyhow = "=1.0.104"
eframe = { version = "=0.36.2", default-features = false, features = ["glow", "default_fonts", "x11", "wayland"] }
egui = "=0.36.2"
egui_extras = { version = "=0.36.2", features = ["all_loaders"] }
env_logger = "=0.11.11"
pdfium-render = "=0.9.4"
rfd = "=0.17.2"

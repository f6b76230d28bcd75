[package]
name = "mercearia"
version = "0.1.0"
edition = "2021"
publish = false

[dependencies]
chrono = "0.4"
hex = "0.4"
sha2 = "0.10"
rusqlite = { version = "0.40", features = ["bundled"] }
eframe = { version = "=0.31.1", default-features = false, features = ["glow", "default_fonts", "x11"] }
egui = "=0.31.1"
egui_extras = { version = "=0.31.1", default-features = false }
egui_plot = "=0.31.0"

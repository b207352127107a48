[package]
name = "headlines"
version = "0.1.0"
edition = "2021"
publish = false

[dependencies]
confy = "*"
eframe = { version = "*", default-features = false, features = ["default_fonts", "glow", "x11"] }
serde = { version = "*", features = ["derive"] }
tracing = "*"
tracing-subscriber = "*"

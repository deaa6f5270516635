[package]
name = "atomcode-switch"
version = "0.1.5"
edition = "2021"
publish = false

[dependencies]
chrono = "0.4"
directories = "5"
eframe = { version = "0.27", default-features = false, features = ["default_fonts", "glow"] }
ico = "0.3"
serde = { version = "1", features = ["derive"] }
serde_yaml = "0.9"
tinyfiledialogs = "3"
toml = "0.8"

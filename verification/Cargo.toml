[package]
name = "iam_business"
version = "0.1.0"
edition = "2021"
publish = false

[dependencies]
chrono = "0.4"
csv = "1"
serde = { version = "1", features = ["derive"] }
eframe = { version = "0.29", default-features = false, features = ["default_fonts", "glow"] }

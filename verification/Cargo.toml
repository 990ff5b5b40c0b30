[package]
name = "headlines"
version = "0.1.0"
edition = "2021"
publish = false

[dependencies]
newsapi = "*"
confy = "0.5"
serde = { version = "1", features = ["derive"] }
eframe = { version = "0.23", default-features = false, features = ["glow"] }
tracing = "0.1"
tracing-subscriber = "0.3"

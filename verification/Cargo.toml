[package]
name = "quick_memo"
version = "0.1.0"
edition = "2021"
publish = false

[dependencies]
chrono = { version = "0.4", features = ["serde"] }
dirs = "5"
eframe = { version = "0.29", default-features = false, features = ["glow"] }
serde = { version = "1", features = ["derive"] }
serde_json = "1"

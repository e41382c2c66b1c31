[package]
name = "intuitive_editor"
version = "0.1.0"
edition = "2021"
publish = false

[dependencies]
eframe = { version = "=0.15.0", features = ["persistence"] }
nfd = "=0.0.4"
serde = { version = "=1.0.229", features = ["derive"] }

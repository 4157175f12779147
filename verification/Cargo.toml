[package]
name = "festerm"
version = "0.1.0"
edition = "2021"
publish = false

[dependencies]
directories = "=6.0.0"
eframe = { version = "=0.36.2", default-features = false, features = ["default_fonts", "wgpu", "x11"] }
fs2 = "=0.4.3"
serde = { version = "=1.0.229", features = ["derive"] }
serde_json = "=1.0.154"
tempfile = "=3.27.0"
tracing = "=0.1.44"
tracing-subscriber = { version = "=0.3.23", features = ["env-filter"] }

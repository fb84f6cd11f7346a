[package]
name = "display_adapter"
version = "0.1.0"
edition = "2021"
publish = false

[dependencies]
anyhow = "1"
serde = { version = "1", features = ["derive"] }
x11-dl = "2"
xrandr = "*"

[package]
name = "padbridge"
version = "0.1.0"
edition = "2021"
publish = false

[dependencies]
gilrs = "0.10"
serde = { version = "1", features = ["derive"] }
window-vibrancy = "0.4"

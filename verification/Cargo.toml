[package]
name = "rclip"
version = "0.1.0"
edition = "2021"
publish = false

[dependencies]
clap = "=3.2.25"
dirs = "=7.0.0"
rustls = { version = "=0.21.12", features = ["dangerous_configuration"] }
serde = { version = "=1.0.229", features = ["derive"] }
toml = "=0.5.11"
wl-clipboard-rs = "=0.9.4"

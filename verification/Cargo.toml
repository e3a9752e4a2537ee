[package]
name = "obs_reminder"
version = "0.1.0"
edition = "2021"
publish = false

[dependencies]
rand = "=0.8.8"
uuid = { version = "=1.29.0", features = ["v4"] }
serde_json = "=1.0.154"
mime_guess = "=2.0.5"
tokio = { version = "=1.54.1", features = ["full"] }
serde = { version = "=1.0.229", features = ["derive"] }
toml = "=1.1.8"
log = "=0.4.34"
env_logger = "=0.11.11"
futures-util = "=0.3.34"
http-body-util = "=0.1.5"
hyper = { version = "=1.12.0", features = ["server", "http1"] }
hyper-util = { version = "=0.1.21", features = ["tokio"] }
tokio-tungstenite = "=0.30.0"
rust-embed = "=8.13.0"
open = "=5.4.5"
eframe = { version = "=0.31.1", default-features = false, features = ["default_fonts", "glow", "x11"] }
catppuccin-egui = { version = "=5.5.0", default-features = false, features = ["egui31"] }
image = { version = "=0.25.10", default-features = false, features = ["ico"] }

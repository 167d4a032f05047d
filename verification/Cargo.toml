[package]
name = "epaper"
version = "0.1.0"
edition = "2021"
publish = false

[dependencies]
chrono = "*"
clap = { version = "*", features = ["derive"] }
cosmic-text = "*"
dotenv = "*"
image = "*"
imageproc = "*"
lazy_static = "*"
log = "*"
markdown = "*"
pretty_env_logger = "*"
regex = "*"
rppal = "*"
serde = { version = "*", features = ["derive"] }
serde_json = "*"

[package]
name = "nano"
version = "0.1.0"
edition = "2021"
publish = false

[dependencies]
unicode-segmentation = "1"
syntect = { version = "5", default-features = false, features = ["default-fancy"] }
crossterm = "*"
log = "0.4"
env_logger = "*"
chrono = "0.4"
thiserror = "*"
serde = { version = "1", features = ["derive"] }
serde_derive = "1"
config = { version = "*", default-features = false, features = ["toml"] }

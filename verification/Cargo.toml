[package]
name = "melee_vpad"
version = "0.1.0"
edition = "2021"
publish = false

[dependencies]
env_logger = "*"
evdev-rs = "=0.6.3"
log = "*"
serde = { version = "*", features = ["derive"] }
toml = "=1.1.7"
xdg = "=3.0.0"

[dev-dependencies]
fixed = "=1.31.0"

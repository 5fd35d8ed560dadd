[package]
name = "voice_shell_app"
version = "0.1.0"
edition = "2021"
publish = false

[dependencies]
libc = "*"
log = "*"
env_logger = "*"
serde = { version = "*", features = ["derive"] }
notify-rust = "*"

[package]
name = "pca9685"
version = "0.1.0"
edition = "2021"
publish = false

[dependencies]
pwm-pca9685 = "*"
linux-embedded-hal = "*"
clap = { version = "*", features = ["derive"] }
env_logger = "*"
log = "*"
serde = { version = "*", features = ["derive"] }
serde_yaml = "*"
strum = { version = "*", features = ["derive"] }

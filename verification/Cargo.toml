[package]
name = "pulse_switcher"
version = "0.1.0"
edition = "2021"
publish = false

[dependencies]
anyhow = "*"
clap = { version = "*", features = ["derive"] }
dirs-next = "*"
pulsectl-rs = "*"
regex = "*"
serde = { version = "*", features = ["derive"] }
toml = "*"
yall = "*"

[package]
name = "fallingblocks"
version = "0.1.0"
edition = "2021"
publish = false

[dependencies]
fastrand = "2"
crossterm = "*"
ratatui = "*"
serde = { version = "1", features = ["derive"] }
toml = "*"
dirs = "*"

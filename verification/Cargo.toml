[package]
name = "pe"
version = "0.1.0"
edition = "2021"
publish = false

[dependencies]
anyhow = "*"
clap = { version = "*", features = ["derive"] }
crossterm = "*"
figment = { version = "*", features = ["toml"] }
home = "*"
ratatui = "*"
serde = { version = "*", features = ["derive"] }
syntect = { version = "*", default-features = false, features = ["default-fancy"] }

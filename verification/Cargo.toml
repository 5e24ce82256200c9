[package]
name = "stems"
version = "0.1.0"
edition = "2021"
publish = false

[dependencies]
rtrb = "*"
chrono = "*"
hound = "*"
anyhow = "*"
serde = { version = "*", features = ["derive"] }
serde_yaml = "*"
clap = { version = "*", features = ["derive"] }
crossterm = "*"
ratatui = "*"

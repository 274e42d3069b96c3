[package]
name = "klemme"
version = "0.1.0"
edition = "2021"
publish = false

[dependencies]
chrono = "*"
serial2 = "*"
crossterm = "*"
ratatui = "*"
serde = { version = "1", features = ["derive"] }
serde_json = "1"

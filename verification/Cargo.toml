[package]
name = "dayroll"
version = "0.1.0"
edition = "2021"
publish = false

[dependencies]
chrono = "0.4"
uuid = { version = "1", features = ["v4"] }
pulldown-cmark = "*"
serde = { version = "1", features = ["derive"] }
serde_json = "1"
toml = "*"
ratatui = "*"
crossterm = "*"

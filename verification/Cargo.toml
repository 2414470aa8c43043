[package]
name = "tui_counter"
version = "0.1.0"
edition = "2021"
publish = false

[dependencies]
ratatui = "*"
crossterm = "*"
tokio = { version = "*", features = ["rt", "sync", "time"] }
serde = { version = "*", features = ["derive"] }

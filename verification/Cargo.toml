[package]
name = "amux"
version = "0.1.0"
edition = "2021"
publish = false

[dependencies]
code-fuzzy-match = "*"
regex = "1"
serde = { version = "1", features = ["derive"] }
serde_json = "1"
crossterm = "*"
ratatui = "*"
anyhow = "1"

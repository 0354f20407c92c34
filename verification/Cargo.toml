[package]
name = "vpp_sim"
version = "0.1.0"
edition = "2021"
publish = false

[dependencies]
rand = "*"
csv = "*"
serde = { version = "*", features = ["derive"] }
serde_json = "*"
toml = "*"
axum = "*"
tokio = { version = "*", features = ["rt", "net", "macros"] }
crossterm = "*"
ratatui = "*"

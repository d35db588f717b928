[package]
name = "ratatui_widgets"
version = "0.1.0"
edition = "2021"
publish = false

[dependencies]
ratatui-core = "*"
serde = { version = "1", features = ["derive"] }
strum = { version = "*", features = ["derive"] }

[package]
name = "nlo_text_editor_client"
version = "0.1.0"
edition = "2021"
publish = false

[dependencies]
unicode-segmentation = "1"
ron = "0.8"
serde = { version = "1", features = ["derive"] }
crossterm = "0.27"
ratatui = "0.26"
